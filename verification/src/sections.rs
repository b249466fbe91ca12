//! Locating a day inside an ordered list of section lengths.
//!
//! A year is cut into consecutive sections (months, or seasons), each a number
//! of days long. Given the days elapsed since the start of the year, the lookup
//! answers which section the day falls in and how far into that section it is.

use vstd::prelude::*;

verus! {

/// Where an offset lands in a list of sections.
pub struct SectionPosition {
    /// Number of whole sections that lie before the offset.
    pub index: nat,
    /// What is left of the offset once those sections are taken away.
    pub offset: nat,
}

/// Combined length of the first `count` sections.
pub open spec fn length_before(sections: Seq<usize>, count: nat) -> nat
    recommends
        count <= sections.len(),
    decreases count,
{
    if count == 0 {
        0
    } else {
        length_before(sections, (count - 1) as nat) + sections[count - 1] as nat
    }
}

/// Combined length of all the sections.
pub open spec fn total_length(sections: Seq<usize>) -> nat {
    length_before(sections, sections.len())
}

/// The scan that defines the lookup, resumed at section `from` with `offset`
/// days still to place: it stops at the first section longer than what is
/// left, or past the last section.
pub open spec fn scan_from(offset: nat, sections: Seq<usize>, from: nat) -> SectionPosition
    decreases sections.len() - from,
{
    if from >= sections.len() || offset < sections[from as int] {
        SectionPosition { index: from, offset }
    } else {
        scan_from((offset - sections[from as int]) as nat, sections, from + 1)
    }
}

/// The section that holds `offset`, and the offset within it.
///
/// When `offset` is not smaller than the total length, the index is the number
/// of sections and the offset is what exceeds the total.
pub open spec fn section_of(offset: nat, sections: Seq<usize>) -> SectionPosition {
    scan_from(offset, sections, 0)
}

proof fn lemma_scan_from(offset: nat, sections: Seq<usize>, from: nat)
    requires
        from <= sections.len(),
    ensures
        from <= scan_from(offset, sections, from).index <= sections.len(),
        length_before(sections, scan_from(offset, sections, from).index) + scan_from(
            offset,
            sections,
            from,
        ).offset == length_before(sections, from) + offset,
        scan_from(offset, sections, from).index < sections.len() ==> scan_from(
            offset,
            sections,
            from,
        ).offset < sections[scan_from(offset, sections, from).index as int],
    decreases sections.len() - from,
{
    if from >= sections.len() || offset < sections[from as int] {
    } else {
        lemma_scan_from((offset - sections[from as int]) as nat, sections, from + 1);
    }
}

/// Lengths only grow as more sections are counted.
pub proof fn lemma_length_before_monotonic(sections: Seq<usize>, fewer: nat, more: nat)
    requires
        fewer <= more,
    ensures
        length_before(sections, fewer) <= length_before(sections, more),
    decreases more,
{
    if fewer < more {
        lemma_length_before_monotonic(sections, fewer, (more - 1) as nat);
    }
}

/// The lookup splits the offset exactly: the sections before the found index
/// plus the remaining offset give back the offset, and the remaining offset
/// fits inside the found section. An offset below the total length always
/// lands inside one of the sections.
pub proof fn lemma_section_of_splits(offset: nat, sections: Seq<usize>)
    ensures
        section_of(offset, sections).index <= sections.len(),
        length_before(sections, section_of(offset, sections).index) + section_of(
            offset,
            sections,
        ).offset == offset,
        section_of(offset, sections).index < sections.len() ==> section_of(
            offset,
            sections,
        ).offset < sections[section_of(offset, sections).index as int],
        offset < total_length(sections) ==> section_of(offset, sections).index < sections.len(),
{
    lemma_scan_from(offset, sections, 0);
}

/// The split of `lemma_section_of_splits` has one solution only, so it says
/// everything there is to say about the lookup.
pub proof fn lemma_section_of_unique(offset: nat, sections: Seq<usize>, index: nat, rest: nat)
    requires
        index <= sections.len(),
        length_before(sections, index) + rest == offset,
        index < sections.len() ==> rest < sections[index as int],
    ensures
        section_of(offset, sections) == (SectionPosition { index, offset: rest }),
{
    let found = section_of(offset, sections);
    lemma_section_of_splits(offset, sections);
    if found.index < index {
        lemma_length_before_monotonic(sections, found.index + 1, index);
    } else if index < found.index {
        lemma_length_before_monotonic(sections, index + 1, found.index);
    }
}

/// The sections that a scan bounded by `max` looks at: the first `max` of
/// them, or all of them where there are fewer.
pub open spec fn sections_scanned(sections: Seq<usize>, max: nat) -> Seq<usize> {
    if max <= sections.len() {
        sections.take(max as int)
    } else {
        sections
    }
}

/// Finds the section that holds `day` among the first `max` entries of
/// `array`, scanning from the front, and returns its index together with the
/// day's offset inside it.
///
/// `max` may exceed the number of entries only where `day` lies inside one of
/// them, so that the scan ends before it runs out of entries.
pub fn find_correct_index_and_day_in_section(day: usize, max: usize, array: &Vec<usize>) -> (found:
    (usize, usize))
    requires
        max <= array.len() || day < total_length(array@),
    ensures
        found.0 == section_of(day as nat, sections_scanned(array@, max as nat)).index,
        found.1 == section_of(day as nat, sections_scanned(array@, max as nat)).offset,
{
    let ghost sections = sections_scanned(array@, max as nat);
    let mut day_counter: usize = day;
    let mut stop: bool = false;
    let mut index: usize = 0;
    while !stop && index < max
        invariant
            index <= sections.len() <= array.len(),
            sections.len() <= max,
            sections == sections_scanned(array@, max as nat),
            max <= array.len() || day < total_length(array@),
            scan_from(day_counter as nat, sections, index as nat) == section_of(
                day as nat,
                sections,
            ),
            stop ==> index < sections.len() && day_counter < sections[index as int],
        decreases (max - index) + (if stop { 0int } else { 1int }),
    {
        proof {
            lemma_section_of_splits(day as nat, sections);
        }
        let next_month_duration: usize = array[index];
        if day_counter < next_month_duration {
            stop = true;
        } else {
            day_counter -= next_month_duration;
            index += 1;
        }
    }
    (index, day_counter)
}

/// Adds up a list of durations. The sum is held in 128 bits, which no list
/// of machine-word lengths can overflow.
pub fn total_duration(durations: &Vec<usize>) -> (total: u128)
    ensures
        total == total_length(durations@),
{
    let mut total: u128 = 0;
    let mut index: usize = 0;
    while index < durations.len()
        invariant
            index <= durations.len(),
            total == length_before(durations@, index as nat),
            total <= index * usize::MAX,
        decreases durations.len() - index,
    {
        assert((index + 1) * usize::MAX <= u128::MAX) by (nonlinear_arith)
            requires
                index < usize::MAX,
                usize::MAX <= u64::MAX,
        ;
        assert(index * usize::MAX + usize::MAX == (index + 1) * usize::MAX) by (nonlinear_arith);
        total = total + durations[index] as u128;
        index += 1;
    }
    total
}

} // verus!
