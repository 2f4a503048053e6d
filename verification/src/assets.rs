//! The case-insensitive virtual filesystem overlay, at its decision kernel:
//! a base path held as components, and the component matching that resolves
//! a requested name against a directory listing without regard to ASCII
//! case. Reading directories and files is the driver's work; choosing which
//! entry a component resolves to is decided and verified here.
//!
//! Path components are byte strings in the platform's 8-bit form.

use vstd::prelude::*;

verus! {

/// `b` with an ASCII capital letter folded to its small form.
pub open spec fn ascii_lower(b: u8) -> u8 {
    if 0x41 <= b <= 0x5A {
        (b + 0x20) as u8
    } else {
        b
    }
}

/// Byte strings equal without regard to ASCII case.
pub open spec fn eq_ignore_ascii_case(a: Seq<u8>, b: Seq<u8>) -> bool {
    a.len() == b.len() && forall|i: int|
        0 <= i < a.len() ==> ascii_lower(#[trigger] a[i]) == ascii_lower(b[i])
}

fn lower_byte(b: u8) -> (r: u8)
    ensures
        r == ascii_lower(b),
{
    if 0x41 <= b && b <= 0x5A {
        b + 0x20
    } else {
        b
    }
}

/// Whether two byte strings are equal without regard to ASCII case.
pub fn bytes_eq_ignore_case(a: &Vec<u8>, b: &Vec<u8>) -> (r: bool)
    ensures
        r == eq_ignore_ascii_case(a@, b@),
{
    if a.len() != b.len() {
        return false;
    }
    let mut i: usize = 0;
    while i < a.len()
        invariant
            i <= a@.len(),
            a@.len() == b@.len(),
            forall|j: int| 0 <= j < i ==> ascii_lower(#[trigger] a@[j]) == ascii_lower(b@[j]),
        decreases a@.len() - i,
    {
        if lower_byte(a[i]) != lower_byte(b[i]) {
            return false;
        }
        i = i + 1;
    }
    true
}

/// The entry a path component resolves to in a directory listing: the first
/// entry equal to the component without regard to ASCII case, or none.
pub fn match_component(entries: &Vec<Vec<u8>>, component: &Vec<u8>) -> (r: Option<usize>)
    ensures
        match r {
            Some(i) => {
                &&& i < entries@.len()
                &&& eq_ignore_ascii_case(entries@[i as int]@, component@)
                &&& forall|j: int|
                    0 <= j < i ==> !eq_ignore_ascii_case((#[trigger] entries@[j])@, component@)
            },
            None => forall|j: int|
                0 <= j < entries@.len() ==> !eq_ignore_ascii_case(
                    (#[trigger] entries@[j])@,
                    component@,
                ),
        },
{
    let mut i: usize = 0;
    while i < entries.len()
        invariant
            i <= entries@.len(),
            forall|j: int|
                0 <= j < i ==> !eq_ignore_ascii_case((#[trigger] entries@[j])@, component@),
        decreases entries@.len() - i,
    {
        if bytes_eq_ignore_case(&entries[i], component) {
            return Some(i);
        }
        i = i + 1;
    }
    None
}

/// The overlay's root: a base path, held as its components in order.
#[derive(Clone, Debug)]
pub struct LR2fs {
    base: Vec<Vec<u8>>,
}

impl LR2fs {
    /// The base path's components, outermost first.
    pub closed spec fn base_components(&self) -> Seq<Vec<u8>> {
        self.base@
    }

    pub fn new(base: Vec<Vec<u8>>) -> (r: LR2fs)
        ensures
            r.base_components() == base@,
    {
        LR2fs { base }
    }

    /// The name of the base directory: the last component, or none when the
    /// base is the filesystem root.
    pub fn base_name(&self) -> (r: Option<&Vec<u8>>)
        ensures
            match r {
                Some(v) => self.base_components().len() > 0 && *v == self.base_components().last(),
                None => self.base_components().len() == 0,
            },
    {
        if self.base.len() > 0 {
            Some(&self.base[self.base.len() - 1])
        } else {
            None
        }
    }

    /// How many components the base path has.
    pub fn depth(&self) -> (n: usize)
        ensures
            n == self.base_components().len(),
    {
        self.base.len()
    }
}

} // verus!
