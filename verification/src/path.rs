use vstd::prelude::*;
use vstd::string::StringExecFns;

use core::cmp::Ordering;

verus! {

/// One hop in a [`LensPath`]: the zero-based position of a field among its
/// siblings, or an index into an ordered collection.
#[derive(PartialEq, Eq, Structural, PartialOrd, Ord, Debug, Clone, Copy)]
pub struct LensPathElement {
    /// The identifier of the hop.
    pub id: u64,
}

impl LensPathElement {
    /// Creates a new element with the given identifier.
    pub fn new(id: u64) -> (e: LensPathElement)
        ensures
            e.id == id,
    {
        LensPathElement { id }
    }
}

/// Describes a lens relative to a source data structure: the ordered sequence
/// of hops taken from the root to the target field.  An empty path denotes
/// the whole structure.  Paths are immutable value objects; equality is
/// structural over the element sequence.
#[derive(Debug, Clone)]
pub struct LensPath {
    /// The path elements, in root-to-leaf order.
    pub elements: Vec<LensPathElement>,
}

/// The sequence of hop identifiers carried by a sequence of path elements.
pub open spec fn ids_of(elements: Seq<LensPathElement>) -> Seq<u64> {
    elements.map_values(|e: LensPathElement| e.id)
}

impl View for LensPath {
    type V = Seq<u64>;

    open spec fn view(&self) -> Seq<u64> {
        ids_of(self.elements@)
    }
}

impl LensPath {
    /// Creates a new `LensPath` with no elements.
    pub fn empty() -> (p: LensPath)
        ensures
            p@ == Seq::<u64>::empty(),
    {
        let p = LensPath { elements: Vec::new() };
        proof {
            assert(p@ =~= Seq::<u64>::empty());
        }
        p
    }

    /// Creates a new `LensPath` with a single element.
    pub fn new(id: u64) -> (p: LensPath)
        ensures
            p@ == seq![id],
    {
        let mut elements: Vec<LensPathElement> = Vec::new();
        elements.push(LensPathElement { id });
        let p = LensPath { elements };
        proof {
            assert(p@ =~= seq![id]);
        }
        p
    }

    /// Creates a new `LensPath` with a single index (for an indexed type
    /// such as `Vec`).
    pub fn from_index(index: usize) -> (p: LensPath)
        ensures
            p@ == seq![index as u64],
    {
        LensPath::new(index as u64)
    }

    /// Creates a new `LensPath` with two elements.
    pub fn from_pair(id0: u64, id1: u64) -> (p: LensPath)
        ensures
            p@ == seq![id0, id1],
    {
        let mut elements: Vec<LensPathElement> = Vec::new();
        elements.push(LensPathElement { id: id0 });
        elements.push(LensPathElement { id: id1 });
        let p = LensPath { elements };
        proof {
            assert(p@ =~= seq![id0, id1]);
        }
        p
    }

    /// Creates a new `LensPath` from a vector of element identifiers,
    /// one element per identifier, in order.
    pub fn from_vec(ids: Vec<u64>) -> (p: LensPath)
        ensures
            p@ == ids@,
    {
        let mut elements: Vec<LensPathElement> = Vec::new();
        let mut i: usize = 0;
        while i < ids.len()
            invariant
                i <= ids.len(),
                ids_of(elements@) =~= ids@.subrange(0, i as int),
            decreases ids.len() - i,
        {
            let ghost prev = elements@;
            elements.push(LensPathElement { id: ids[i] });
            proof {
                assert(ids_of(elements@) =~= ids_of(prev).push(ids@[i as int]));
            }
            i += 1;
        }
        let p = LensPath { elements };
        proof {
            assert(p@ =~= ids@);
        }
        p
    }

    /// Creates a new `LensPath` that is the concatenation of the two paths:
    /// the elements of `lhs` followed by the elements of `rhs`.
    pub fn concat(lhs: LensPath, rhs: LensPath) -> (p: LensPath)
        ensures
            p@ == lhs@ + rhs@,
    {
        let ghost lhs_ids = lhs@;
        let mut elements = lhs.elements;
        let mut i: usize = 0;
        while i < rhs.elements.len()
            invariant
                i <= rhs.elements.len(),
                ids_of(elements@) =~= lhs_ids + rhs@.subrange(0, i as int),
            decreases rhs.elements.len() - i,
        {
            let ghost prev = elements@;
            elements.push(rhs.elements[i]);
            proof {
                assert(ids_of(elements@) =~= ids_of(prev).push(rhs@[i as int]));
            }
            i += 1;
        }
        let p = LensPath { elements };
        proof {
            assert(p@ =~= lhs_ids + rhs@);
        }
        p
    }
}

/// The character for the single decimal digit `d`.
pub open spec fn digit_char(d: nat) -> char {
    if d == 0 {
        '0'
    } else if d == 1 {
        '1'
    } else if d == 2 {
        '2'
    } else if d == 3 {
        '3'
    } else if d == 4 {
        '4'
    } else if d == 5 {
        '5'
    } else if d == 6 {
        '6'
    } else if d == 7 {
        '7'
    } else if d == 8 {
        '8'
    } else {
        '9'
    }
}

/// The decimal digits of `n`, most significant first.
pub open spec fn dec_chars(n: nat) -> Seq<char>
    decreases n,
{
    if n < 10 {
        seq![digit_char(n)]
    } else {
        dec_chars(n / 10).push(digit_char(n % 10))
    }
}

/// The identifiers of a path rendered in decimal and joined by a comma and
/// a space.
pub open spec fn ids_join(ids: Seq<u64>) -> Seq<char>
    decreases ids.len(),
{
    if ids.len() == 0 {
        Seq::empty()
    } else if ids.len() == 1 {
        dec_chars(ids[0] as nat)
    } else {
        dec_chars(ids[0] as nat) + seq![',', ' '] + ids_join(ids.drop_first())
    }
}

/// The rendering of a path: its identifiers in decimal, joined by a comma
/// and a space, between square brackets.
pub open spec fn path_display_chars(ids: Seq<u64>) -> Seq<char> {
    seq!['['] + ids_join(ids) + seq![']']
}

/// Joining one more identifier appends its digits at the end, after a
/// separator when the path was not empty.
proof fn lemma_ids_join_push(ids: Seq<u64>, id: u64)
    ensures
        ids_join(ids.push(id)) == if ids.len() == 0 {
            dec_chars(id as nat)
        } else {
            ids_join(ids) + seq![',', ' '] + dec_chars(id as nat)
        },
    decreases ids.len(),
{
    let pushed = ids.push(id);
    if ids.len() == 0 {
        assert(pushed.len() == 1);
        assert(pushed[0] == id);
    } else {
        assert(pushed.len() >= 2);
        assert(pushed[0] == ids[0]);
        assert(pushed.drop_first() =~= ids.drop_first().push(id));
        lemma_ids_join_push(ids.drop_first(), id);
        if ids.len() == 1 {
            assert(ids_join(pushed) =~= ids_join(ids) + seq![',', ' '] + dec_chars(id as nat));
        } else {
            assert(ids_join(pushed) =~= ids_join(ids) + seq![',', ' '] + dec_chars(id as nat));
        }
    }
}

/// The string for the single decimal digit `d`.
fn digit_str(d: u64) -> (s: &'static str)
    requires
        d < 10,
    ensures
        s@ == seq![digit_char(d as nat)],
{
    if d == 0 {
        proof {
            reveal_strlit("0");
        }
        "0"
    } else if d == 1 {
        proof {
            reveal_strlit("1");
        }
        "1"
    } else if d == 2 {
        proof {
            reveal_strlit("2");
        }
        "2"
    } else if d == 3 {
        proof {
            reveal_strlit("3");
        }
        "3"
    } else if d == 4 {
        proof {
            reveal_strlit("4");
        }
        "4"
    } else if d == 5 {
        proof {
            reveal_strlit("5");
        }
        "5"
    } else if d == 6 {
        proof {
            reveal_strlit("6");
        }
        "6"
    } else if d == 7 {
        proof {
            reveal_strlit("7");
        }
        "7"
    } else if d == 8 {
        proof {
            reveal_strlit("8");
        }
        "8"
    } else {
        proof {
            reveal_strlit("9");
        }
        "9"
    }
}

/// Renders `n` in decimal.
fn u64_string(n: u64) -> (s: String)
    ensures
        s@ == dec_chars(n as nat),
    decreases n,
{
    if n < 10 {
        let mut s = String::new();
        s.append(digit_str(n));
        proof {
            assert(s@ =~= dec_chars(n as nat));
        }
        s
    } else {
        let mut s = u64_string(n / 10);
        s.append(digit_str(n % 10));
        proof {
            assert(s@ =~= dec_chars(n as nat));
        }
        s
    }
}

impl LensPath {
    /// Renders the path as its identifiers in decimal, joined by a comma
    /// and a space, between square brackets: the empty path is `[]`, and a
    /// three-hop path may read `[1, 2, 3]`.
    pub fn to_debug_string(&self) -> (s: String)
        ensures
            s@ == path_display_chars(self@),
    {
        proof {
            reveal_strlit("[");
            reveal_strlit(", ");
            reveal_strlit("]");
        }
        let mut s = String::from_str("[");
        let mut i: usize = 0;
        while i < self.elements.len()
            invariant
                i <= self.elements.len(),
                s@ =~= seq!['['] + ids_join(self@.take(i as int)),
            decreases self.elements.len() - i,
        {
            if i > 0 {
                s.append(", ");
            }
            let digits = u64_string(self.elements[i].id);
            s.append(digits.as_str());
            proof {
                reveal_strlit(", ");
                assert(self@[i as int] == self.elements@[i as int].id);
                lemma_ids_join_push(self@.take(i as int), self@[i as int]);
                assert(self@.take(i as int).push(self@[i as int]) =~= self@.take(i as int + 1));
                assert(s@ =~= seq!['['] + ids_join(self@.take(i as int + 1)));
            }
            i += 1;
        }
        s.append("]");
        proof {
            reveal_strlit("]");
            assert(self@.take(self.elements@.len() as int) =~= self@);
            assert(s@ =~= path_display_chars(self@));
        }
        s
    }
}

impl PartialEq for LensPath {
    /// Two paths are equal exactly when their element sequences are equal:
    /// same length, pairwise-equal identifiers.
    fn eq(&self, other: &LensPath) -> (r: bool) {
        if self.elements.len() != other.elements.len() {
            proof {
                assert(self@.len() != other@.len());
            }
            return false;
        }
        let mut i: usize = 0;
        while i < self.elements.len()
            invariant
                i <= self.elements.len(),
                self.elements.len() == other.elements.len(),
                forall|j: int| 0 <= j < i ==> self@[j] == other@[j],
            decreases self.elements.len() - i,
        {
            if self.elements[i].id != other.elements[i].id {
                proof {
                    assert(self@[i as int] != other@[i as int]);
                }
                return false;
            }
            i += 1;
        }
        proof {
            assert(self@ =~= other@);
        }
        true
    }
}

impl Eq for LensPath {

}

impl vstd::std_specs::cmp::PartialEqSpecImpl for LensPath {
    open spec fn obeys_eq_spec() -> bool {
        true
    }

    open spec fn eq_spec(&self, other: &LensPath) -> bool {
        self@ == other@
    }
}

/// The lexicographic order of two identifier sequences: the first position
/// where they differ decides, and a strict prefix comes before every
/// extension of it.
pub open spec fn lex_cmp(a: Seq<u64>, b: Seq<u64>) -> Ordering
    decreases a.len(),
{
    if a.len() == 0 && b.len() == 0 {
        Ordering::Equal
    } else if a.len() == 0 {
        Ordering::Less
    } else if b.len() == 0 {
        Ordering::Greater
    } else if a[0] < b[0] {
        Ordering::Less
    } else if a[0] > b[0] {
        Ordering::Greater
    } else {
        lex_cmp(a.drop_first(), b.drop_first())
    }
}

/// Path ordering is consistent with path equality: the lexicographic
/// comparison reports `Equal` exactly when the identifier sequences are
/// equal.
pub proof fn lemma_lex_cmp_equal(a: Seq<u64>, b: Seq<u64>)
    ensures
        (lex_cmp(a, b) == Ordering::Equal) <==> (a == b),
    decreases a.len(),
{
    if a.len() == 0 && b.len() == 0 {
        assert(a =~= b);
    } else if a.len() > 0 && b.len() > 0 && a[0] == b[0] {
        lemma_lex_cmp_equal(a.drop_first(), b.drop_first());
        if lex_cmp(a, b) == Ordering::Equal {
            assert(a.len() == b.len());
            assert forall|i: int| 0 <= i < a.len() implies a[i] == b[i] by {
                if i > 0 {
                    assert(a[i] == a.drop_first()[i - 1]);
                    assert(b[i] == b.drop_first()[i - 1]);
                }
            }
            assert(a =~= b);
        }
        if a == b {
            assert(a.drop_first() =~= b.drop_first());
        }
    }
}

impl PartialOrd for LensPath {
    /// Paths are ordered lexicographically over their element identifiers.
    fn partial_cmp(&self, other: &LensPath) -> (r: Option<Ordering>) {
        let a_len = self.elements.len();
        let b_len = other.elements.len();
        let mut i: usize = 0;
        proof {
            assert(self@.skip(0) =~= self@);
            assert(other@.skip(0) =~= other@);
        }
        while i < a_len && i < b_len
            invariant
                i <= a_len,
                i <= b_len,
                a_len == self.elements.len(),
                b_len == other.elements.len(),
                lex_cmp(self@, other@) == lex_cmp(self@.skip(i as int), other@.skip(i as int)),
            decreases a_len - i,
        {
            let a = self.elements[i].id;
            let b = other.elements[i].id;
            proof {
                assert(self@.skip(i as int)[0] == self@[i as int]);
                assert(other@.skip(i as int)[0] == other@[i as int]);
            }
            if a < b {
                return Some(Ordering::Less);
            }
            if a > b {
                return Some(Ordering::Greater);
            }
            proof {
                assert(self@.skip(i as int).drop_first() =~= self@.skip(i as int + 1));
                assert(other@.skip(i as int).drop_first() =~= other@.skip(i as int + 1));
            }
            i += 1;
        }
        if a_len == b_len {
            proof {
                assert(self@.skip(i as int).len() == 0);
                assert(other@.skip(i as int).len() == 0);
            }
            Some(Ordering::Equal)
        } else if a_len < b_len {
            proof {
                assert(self@.skip(i as int).len() == 0);
                assert(other@.skip(i as int).len() > 0);
            }
            Some(Ordering::Less)
        } else {
            proof {
                assert(other@.skip(i as int).len() == 0);
                assert(self@.skip(i as int).len() > 0);
            }
            Some(Ordering::Greater)
        }
    }
}

impl vstd::std_specs::cmp::PartialOrdSpecImpl for LensPath {
    open spec fn obeys_partial_cmp_spec() -> bool {
        true
    }

    open spec fn partial_cmp_spec(&self, other: &LensPath) -> Option<Ordering> {
        Some(lex_cmp(self@, other@))
    }
}

/// Path concatenation is associative: concatenating `a` with `b` and then
/// the result with `c` yields the same path as concatenating `a` with the
/// concatenation of `b` and `c`.  Stated over the element sequences, which
/// is exactly what path equality compares.
pub proof fn lemma_concat_associative(a: Seq<u64>, b: Seq<u64>, c: Seq<u64>)
    ensures
        (a + b) + c == a + (b + c),
{
    assert((a + b) + c =~= a + (b + c));
}

} // verus!
