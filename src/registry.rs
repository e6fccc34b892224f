use std::collections::BTreeMap;

use vstd::prelude::*;

use crate::sheet::{default_sheet, Sheet};

verus! {

/// The sheets of a workbook, keyed by sheet index. A sheet comes into being
/// on its first access and stays for the registry's lifetime.
pub struct SheetRegistry {
    sheets: BTreeMap<usize, Sheet>,
}

/// What one get-or-create access does to the registry's contents `m` and
/// which sheet it hands back: the sheet stored at `index`, or a default one,
/// stored there first.
pub open spec fn get_or_create_step(m: Map<usize, Sheet>, index: usize) -> (Map<usize, Sheet>, Sheet) {
    if m.contains_key(index) {
        (m, m[index])
    } else {
        (m.insert(index, default_sheet()), default_sheet())
    }
}

impl View for SheetRegistry {
    type V = Map<usize, Sheet>;

    closed spec fn view(&self) -> Map<usize, Sheet> {
        self.sheets@
    }
}

impl Default for SheetRegistry {
    fn default() -> (r: SheetRegistry)
        ensures
            r@ == Map::<usize, Sheet>::empty(),
    {
        SheetRegistry { sheets: BTreeMap::new() }
    }
}

impl SheetRegistry {
    /// The sheet at `index`, created with the default configuration if no
    /// sheet is there yet.
    pub fn get_or_create(&mut self, index: usize) -> (r: Sheet)
        ensures
            (final(self)@, r) == get_or_create_step(old(self)@, index),
    {
        match self.sheets.get(&index) {
            Some(s) => *s,
            None => {
                let s = Sheet::default();
                self.sheets.insert(index, s);
                s
            },
        }
    }
}

/// Asking twice for the same index hands back the same sheet, and the
/// second access leaves the registry as the first one left it.
pub proof fn lemma_get_or_create_idempotent(m: Map<usize, Sheet>, index: usize)
    ensures
        ({
            let (m1, s1) = get_or_create_step(m, index);
            let (m2, s2) = get_or_create_step(m1, index);
            s2 == s1 && m2 == m1
        }),
{
}

/// An access at one index leaves the sheet at any other index as it was:
/// present or absent, with the same configuration.
pub proof fn lemma_get_or_create_no_alias(m: Map<usize, Sheet>, index: usize, other: usize)
    requires
        index != other,
    ensures
        ({
            let (m1, _s) = get_or_create_step(m, index);
            &&& m1.contains_key(other) == m.contains_key(other)
            &&& m.contains_key(other) ==> m1[other] == m[other]
        }),
{
}

} // verus!
