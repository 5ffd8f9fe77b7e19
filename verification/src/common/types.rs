//! Column value types as plain data.

use vstd::prelude::*;

verus! {

/// A text column.
pub type Text = String;

/// A list column.
pub type List<T> = Vec<T>;

/// A time-ordered unique identifier, held as its 128-bit value.
/// The all-zero value is the nil identifier and stands for "not assigned".
#[derive(Debug, Clone, Copy, PartialEq, Eq, Structural)]
pub struct Timeuuid(pub u128);

/// A point in time, in milliseconds since the Unix epoch.
/// Zero is the default and stands for "not assigned".
#[derive(Debug, Clone, Copy, PartialEq, Eq, Structural)]
pub struct Timestamp(pub i64);

impl Timeuuid {
    /// The nil identifier.
    pub fn nil() -> (r: Timeuuid)
        ensures
            r == Timeuuid(0),
    {
        Timeuuid(0)
    }

    /// The version field of the identifier: bits 76 to 79 of its value.
    pub open spec fn version(self) -> u128 {
        (self.0 >> 76) & 0xf
    }

    pub fn is_nil(&self) -> (r: bool)
        ensures
            r == (self.0 == 0),
    {
        self.0 == 0
    }
}

impl Timestamp {
    /// The default point in time, the epoch itself.
    pub fn epoch() -> (r: Timestamp)
        ensures
            r == Timestamp(0),
    {
        Timestamp(0)
    }
}

/// The texts a list of strings holds, in order.
pub open spec fn texts(list: Seq<String>) -> Seq<Seq<char>> {
    Seq::new(list.len(), |i: int| list[i]@)
}

/// A copy of a list of strings.
pub fn clone_texts(list: &Vec<String>) -> (copy: Vec<String>)
    ensures
        texts(copy@) == texts(list@),
{
    let mut copy: Vec<String> = Vec::new();
    let mut i: usize = 0;
    while i < list.len()
        invariant
            i <= list.len(),
            copy.len() == i,
            forall|j: int| 0 <= j < i ==> copy[j]@ == list[j]@,
        decreases list.len() - i,
    {
        copy.push(list[i].clone());
        i += 1;
    }
    assert(texts(copy@) =~= texts(list@));
    copy
}

/// Whether two lists of strings hold the same texts in the same order.
pub fn same_texts(a: &Vec<String>, b: &Vec<String>) -> (same: bool)
    ensures
        same == (texts(a@) == texts(b@)),
{
    if a.len() != b.len() {
        assert(texts(a@).len() != texts(b@).len());
        return false;
    }
    let mut i: usize = 0;
    while i < a.len()
        invariant
            i <= a.len(),
            a.len() == b.len(),
            forall|j: int| 0 <= j < i ==> a[j]@ == b[j]@,
        decreases a.len() - i,
    {
        if a[i] != b[i] {
            assert(texts(a@)[i as int] != texts(b@)[i as int]);
            return false;
        }
        i += 1;
    }
    assert(texts(a@) =~= texts(b@));
    true
}

/// Whether a text occurs in a list of strings.
pub fn contains_text(list: &Vec<String>, needle: &String) -> (found: bool)
    ensures
        found == texts(list@).contains(needle@),
{
    let mut i: usize = 0;
    while i < list.len()
        invariant
            i <= list.len(),
            forall|j: int| 0 <= j < i ==> list[j]@ != needle@,
        decreases list.len() - i,
    {
        if list[i] == *needle {
            assert(texts(list@)[i as int] == needle@);
            return true;
        }
        i += 1;
    }
    assert forall|j: int| 0 <= j < texts(list@).len() implies texts(list@)[j] != needle@ by {
        assert(texts(list@)[j] == list[j]@);
    }
    false
}

/// The concatenation of two lists of strings.
pub fn concat_texts(left: &Vec<String>, right: &Vec<String>) -> (both: Vec<String>)
    ensures
        texts(both@) == texts(left@) + texts(right@),
{
    let mut both = clone_texts(left);
    let mut i: usize = 0;
    while i < right.len()
        invariant
            i <= right.len(),
            texts(both@) == texts(left@) + texts(right@).take(i as int),
        decreases right.len() - i,
    {
        let ghost before = texts(both@);
        both.push(right[i].clone());
        assert(texts(both@) =~= before.push(right[i as int]@));
        assert(texts(right@).take(i as int + 1) =~= texts(right@).take(i as int).push(
            right[i as int]@,
        ));
        i += 1;
    }
    assert(texts(right@).take(right.len() as int) =~= texts(right@));
    both
}

} // verus!
