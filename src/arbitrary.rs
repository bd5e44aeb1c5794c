use crate::random::{draw_coin, draw_up_to, index_below};
use rand::rngs::StdRng;
use vstd::prelude::*;

verus! {

/// The largest code point.
pub const MAX_CODE: u32 = 0x10FFFF;

/// The first code point of the surrogate block, whose codes are no characters.
pub const SURROGATE_FIRST: u32 = 0xD800;

/// The last code point of the surrogate block.
pub const SURROGATE_LAST: u32 = 0xDFFF;

/// A type whose values can be drawn at random and made smaller.
///
/// `magnitude` is the type's natural size measure (a number's value, a
/// sequence's length). `grow` stays within the size it is given, `shrink`
/// never yields a value larger than its input, and `duplicate` makes a copy.
/// `copy_of` says when one value is a copy of another: equal for plain
/// values, copies element by element for sequences and tuples. Copies have
/// the same magnitude.
pub trait Arbitrary: Sized {
    spec fn magnitude(&self) -> nat;

    spec fn copy_of(&self, original: &Self) -> bool;

    proof fn lemma_copy_same_magnitude(a: &Self, b: &Self)
        requires
            a.copy_of(b),
        ensures
            a.magnitude() == b.magnitude(),
    ;

    fn grow(rng: &mut StdRng, size: u64) -> (r: Self)
        ensures
            r.magnitude() <= size,
    ;

    fn shrink(rng: &mut StdRng, value: &Self) -> (r: Self)
        ensures
            r.magnitude() <= value.magnitude(),
    ;

    fn duplicate(&self) -> (r: Self)
        ensures
            r.copy_of(self),
            r.magnitude() == self.magnitude(),
    ;
}

impl Arbitrary for u32 {
    open spec fn copy_of(&self, original: &u32) -> bool {
        *self == *original
    }

    proof fn lemma_copy_same_magnitude(a: &u32, b: &u32) {
    }

    open spec fn magnitude(&self) -> nat {
        *self as nat
    }

    fn grow(rng: &mut StdRng, size: u64) -> (r: u32) {
        let high: u64 = if size <= u32::MAX as u64 { size } else { u32::MAX as u64 };
        draw_up_to(rng, high) as u32
    }

    fn shrink(rng: &mut StdRng, value: &u32) -> (r: u32) {
        draw_up_to(rng, *value as u64) as u32
    }

    fn duplicate(&self) -> (r: u32) {
        *self
    }
}

/// Whether `code` is the code point of a character.
pub open spec fn is_scalar(code: u32) -> bool {
    code < SURROGATE_FIRST || (SURROGATE_LAST < code && code <= MAX_CODE)
}

/// Relies on std's `char::from_u32`: the character with that code point, or
/// `None` where the code is a surrogate or beyond the largest code point.
#[verifier::external_body]
fn char_from_code(code: u32) -> (r: Option<char>)
    ensures
        r is Some <==> is_scalar(code),
        r matches Some(c) ==> c as u32 == code,
{
    char::from_u32(code)
}

/// The character for a code point at most `MAX_CODE`: the code itself, or, in
/// the surrogate block, the last code point below it.
pub open spec fn scalar_at_most(code: u32) -> u32 {
    if SURROGATE_FIRST <= code && code <= SURROGATE_LAST {
        (SURROGATE_FIRST - 1) as u32
    } else {
        code
    }
}

/// The character whose code is `scalar_at_most(code)`.
pub fn char_at_most(code: u32) -> (r: char)
    requires
        code <= MAX_CODE,
    ensures
        r as u32 == scalar_at_most(code),
        r as u32 <= code,
{
    let c: u32 = if SURROGATE_FIRST <= code && code <= SURROGATE_LAST {
        SURROGATE_FIRST - 1
    } else {
        code
    };
    match char_from_code(c) {
        Some(ch) => ch,
        None => '\0',
    }
}

impl Arbitrary for char {
    open spec fn copy_of(&self, original: &char) -> bool {
        *self == *original
    }

    proof fn lemma_copy_same_magnitude(a: &char, b: &char) {
    }

    open spec fn magnitude(&self) -> nat {
        (*self as u32) as nat
    }

    fn grow(rng: &mut StdRng, size: u64) -> (r: char)
        ensures
            r as u32 <= MAX_CODE,
    {
        let high: u64 = if size <= MAX_CODE as u64 { size } else { MAX_CODE as u64 };
        let code = draw_up_to(rng, high) as u32;
        char_at_most(code)
    }

    fn shrink(rng: &mut StdRng, value: &char) -> (r: char) {
        let v: u32 = *value as u32;
        let high: u32 = if v <= MAX_CODE { v } else { MAX_CODE };
        let code = draw_up_to(rng, high as u64) as u32;
        char_at_most(code)
    }

    fn duplicate(&self) -> (r: char) {
        *self
    }
}

/// Whether `r` is one shrinking step away from `v`: an empty sequence stays
/// empty; otherwise, at one index, the element is either removed or replaced
/// by one of no greater magnitude, and every other element is kept, as a
/// copy, in its place.
pub open spec fn one_step_smaller<A: Arbitrary>(v: Seq<A>, r: Seq<A>) -> bool {
    if v.len() == 0 {
        r.len() == 0
    } else {
        exists|ix: int| 0 <= ix < v.len() && #[trigger] removed_or_shrunk_at(v, r, ix)
    }
}

/// The shrinking step at index `ix`: see `one_step_smaller`.
pub open spec fn removed_or_shrunk_at<A: Arbitrary>(v: Seq<A>, r: Seq<A>, ix: int) -> bool {
    ||| {
        &&& r.len() == v.len() - 1
        &&& forall|j: int| 0 <= j < ix ==> (#[trigger] r[j]).copy_of(&v[j])
        &&& forall|j: int| ix <= j < r.len() ==> (#[trigger] r[j]).copy_of(&v[j + 1])
    }
    ||| {
        &&& r.len() == v.len()
        &&& r[ix].magnitude() <= v[ix].magnitude()
        &&& forall|j: int| 0 <= j < r.len() && j != ix ==> (#[trigger] r[j]).copy_of(&v[j])
    }
}

/// Draws a sequence: its length at most `size`, each element grown at `size`.
pub fn grow_vec<A: Arbitrary>(rng: &mut StdRng, size: u64) -> (r: Vec<A>)
    ensures
        r@.len() <= size,
        forall|j: int| 0 <= j < r@.len() ==> (#[trigger] r@[j]).magnitude() <= size,
{
    let length = draw_up_to(rng, size);
    let mut out: Vec<A> = Vec::new();
    let mut i: u64 = 0;
    while i < length
        invariant
            i <= length <= size,
            out@.len() == i,
            forall|j: int| 0 <= j < out@.len() ==> (#[trigger] out@[j]).magnitude() <= size,
        decreases length - i,
    {
        let x = A::grow(rng, size);
        out.push(x);
        i = i + 1;
    }
    out
}

/// Appends copies of `value[from..to]` to `out`, in order.
fn push_copies<A: Arbitrary>(out: &mut Vec<A>, value: &Vec<A>, from: usize, to: usize)
    requires
        from <= to <= value@.len(),
    ensures
        final(out)@.len() == old(out)@.len() + (to - from),
        forall|j: int| 0 <= j < old(out)@.len() ==> #[trigger] final(out)@[j] == old(out)@[j],
        forall|j: int|
            old(out)@.len() <= j < final(out)@.len() ==> (#[trigger] final(out)@[j]).copy_of(
                &value@[from + j - old(out)@.len()],
            ),
{
    let ghost start = out@.len();
    let mut i: usize = from;
    while i < to
        invariant
            from <= i <= to <= value@.len(),
            out@.len() == start + (i - from),
            forall|j: int| 0 <= j < old(out)@.len() ==> #[trigger] out@[j] == old(out)@[j],
            start == old(out)@.len(),
            forall|j: int| start <= j < out@.len() ==> (#[trigger] out@[j]).copy_of(&value@[from + j - start]),
        decreases to - i,
    {
        let x = value[i].duplicate();
        out.push(x);
        i = i + 1;
    }
}

/// The sequence `value` with element `ix` removed (`replacement` is `None`)
/// or replaced by the given element; every other element is copied, in order.
pub fn shrink_vec_at<A: Arbitrary>(value: &Vec<A>, ix: usize, replacement: Option<A>) -> (r: Vec<A>)
    requires
        ix < value@.len(),
    ensures
        replacement is None ==> r@.len() == value@.len() - 1,
        replacement matches Some(e) ==> r@.len() == value@.len() && r@[ix as int] == e,
        forall|j: int| 0 <= j < ix ==> (#[trigger] r@[j]).copy_of(&value@[j]),
        replacement is None ==> forall|j: int|
            ix <= j < r@.len() ==> (#[trigger] r@[j]).copy_of(&value@[j + 1]),
        replacement is Some ==> forall|j: int|
            ix < j < r@.len() ==> (#[trigger] r@[j]).copy_of(&value@[j]),
{
    let n = value.len();
    let mut out: Vec<A> = Vec::new();
    push_copies(&mut out, value, 0, ix);
    let ghost before = out@;
    match replacement {
        Some(e) => out.push(e),
        None => {},
    }
    push_copies(&mut out, value, ix + 1, n);
    proof {
        assert forall|j: int| 0 <= j < ix implies (#[trigger] out@[j]).copy_of(&value@[j]) by {
            assert(out@[j] == before[j]);
        }
    }
    out
}

/// Picks one index at random; drops its element or, on a coin flip, puts a
/// shrunk copy of it in its place (see `shrink_vec_at`).
pub fn shrink_vec<A: Arbitrary>(rng: &mut StdRng, value: &Vec<A>) -> (r: Vec<A>)
    ensures
        one_step_smaller(value@, r@),
        r@.len() <= value@.len(),
{
    let n = value.len();
    if n == 0 {
        return Vec::new();
    }
    let ix = index_below(rng, n);
    let keep = draw_coin(rng);
    let replacement = if keep {
        Some(A::shrink(rng, &value[ix]))
    } else {
        None
    };
    let out = shrink_vec_at(value, ix, replacement);
    assert(removed_or_shrunk_at(value@, out@, ix as int));
    out
}

impl<A: Arbitrary> Arbitrary for Vec<A> {
    open spec fn copy_of(&self, original: &Vec<A>) -> bool {
        &&& self@.len() == original@.len()
        &&& forall|j: int| 0 <= j < self@.len() ==> (#[trigger] self@[j]).copy_of(&original@[j])
    }

    proof fn lemma_copy_same_magnitude(a: &Vec<A>, b: &Vec<A>) {
    }

    open spec fn magnitude(&self) -> nat {
        self@.len()
    }

    fn grow(rng: &mut StdRng, size: u64) -> (r: Vec<A>)
        ensures
            forall|j: int| 0 <= j < r@.len() ==> (#[trigger] r@[j]).magnitude() <= size,
    {
        grow_vec(rng, size)
    }

    fn shrink(rng: &mut StdRng, value: &Vec<A>) -> (r: Vec<A>)
        ensures
            one_step_smaller(value@, r@),
    {
        shrink_vec(rng, value)
    }

    fn duplicate(&self) -> (r: Vec<A>) {
        let mut out: Vec<A> = Vec::new();
        let mut j: usize = 0;
        while j < self.len()
            invariant
                j <= self@.len(),
                out@.len() == j,
                forall|k: int| 0 <= k < j ==> (#[trigger] out@[k]).copy_of(&self@[k]),
            decreases self@.len() - j,
        {
            let x = self[j].duplicate();
            out.push(x);
            j = j + 1;
        }
        out
    }
}

/// Relies on std's `String::push`: appends one character.
#[verifier::external_body]
fn push_char(s: &mut String, c: char)
    ensures
        final(s)@ == old(s)@.push(c),
{
    s.push(c)
}

/// The string of the given characters, in order.
pub fn string_of(chars: &Vec<char>) -> (r: String)
    ensures
        r@ == chars@,
{
    let mut out = String::new();
    let mut j: usize = 0;
    while j < chars.len()
        invariant
            j <= chars@.len(),
            out@ == chars@.take(j as int),
        decreases chars@.len() - j,
    {
        push_char(&mut out, chars[j]);
        proof {
            assert(chars@.take(j as int + 1) == chars@.take(j as int).push(chars@[j as int]));
        }
        j = j + 1;
    }
    assert(chars@.take(chars@.len() as int) == chars@);
    out
}

/// The characters of a string, in order.
pub fn chars_of(s: &String) -> (r: Vec<char>)
    ensures
        r@ == s@,
{
    let t = s.as_str();
    let n = t.unicode_len();
    let mut out: Vec<char> = Vec::new();
    let mut j: usize = 0;
    while j < n
        invariant
            n == t@.len(),
            t@ == s@,
            j <= n,
            out@ == s@.take(j as int),
        decreases n - j,
    {
        out.push(t.get_char(j));
        proof {
            assert(s@.take(j as int + 1) == s@.take(j as int).push(s@[j as int]));
        }
        j = j + 1;
    }
    assert(s@.take(n as int) == s@);
    out
}

/// Draws a string: at most `size` characters, each of code point at most `size`.
pub fn grow_string(rng: &mut StdRng, size: u64) -> (r: String)
    ensures
        r@.len() <= size,
        forall|j: int| 0 <= j < r@.len() ==> (#[trigger] r@[j]).magnitude() <= size,
{
    let chars: Vec<char> = grow_vec(rng, size);
    string_of(&chars)
}

/// One shrinking step on the characters of a string (see `shrink_vec`).
pub fn shrink_string(rng: &mut StdRng, value: &String) -> (r: String)
    ensures
        one_step_smaller(value@, r@),
        r@.len() <= value@.len(),
{
    let chars = chars_of(value);
    let smaller = shrink_vec(rng, &chars);
    string_of(&smaller)
}

impl Arbitrary for String {
    open spec fn copy_of(&self, original: &String) -> bool {
        *self == *original
    }

    proof fn lemma_copy_same_magnitude(a: &String, b: &String) {
    }

    open spec fn magnitude(&self) -> nat {
        self@.len()
    }

    fn grow(rng: &mut StdRng, size: u64) -> (r: String)
        ensures
            forall|j: int| 0 <= j < r@.len() ==> (#[trigger] r@[j]).magnitude() <= size,
    {
        grow_string(rng, size)
    }

    fn shrink(rng: &mut StdRng, value: &String) -> (r: String)
        ensures
            one_step_smaller(value@, r@),
    {
        shrink_string(rng, value)
    }

    fn duplicate(&self) -> (r: String) {
        self.clone()
    }
}

/// The larger of two magnitudes.
pub open spec fn larger(a: nat, b: nat) -> nat {
    if a >= b {
        a
    } else {
        b
    }
}

impl<A: Arbitrary, B: Arbitrary> Arbitrary for (A, B) {
    open spec fn copy_of(&self, original: &(A, B)) -> bool {
        self.0.copy_of(&original.0) && self.1.copy_of(&original.1)
    }

    proof fn lemma_copy_same_magnitude(a: &(A, B), b: &(A, B)) {
        A::lemma_copy_same_magnitude(&a.0, &b.0);
        B::lemma_copy_same_magnitude(&a.1, &b.1);
    }

    open spec fn magnitude(&self) -> nat {
        larger(self.0.magnitude(), self.1.magnitude())
    }

    fn grow(rng: &mut StdRng, size: u64) -> (r: (A, B))
        ensures
            r.0.magnitude() <= size,
            r.1.magnitude() <= size,
    {
        let x0 = A::grow(rng, size);
        let x1 = B::grow(rng, size);
        (x0, x1)
    }

    /// Shrinks one component, chosen uniformly at random, and copies the others.
    fn shrink(rng: &mut StdRng, value: &(A, B)) -> (r: (A, B))
        ensures
            ({
                ||| {
                    &&& r.0.magnitude() <= value.0.magnitude()
                    &&& r.1.copy_of(&value.1)
                }
                ||| {
                    &&& r.1.magnitude() <= value.1.magnitude()
                    &&& r.0.copy_of(&value.0)
                }
            }),
    {
        let k = index_below(rng, 2);
        let x0 = if k == 0 { A::shrink(rng, &value.0) } else { value.0.duplicate() };
        let x1 = if k == 1 { B::shrink(rng, &value.1) } else { value.1.duplicate() };
        (x0, x1)
    }

    fn duplicate(&self) -> (r: (A, B)) {
        (self.0.duplicate(), self.1.duplicate())
    }
}

impl<A: Arbitrary, B: Arbitrary, C: Arbitrary> Arbitrary for (A, B, C) {
    open spec fn copy_of(&self, original: &(A, B, C)) -> bool {
        self.0.copy_of(&original.0) && self.1.copy_of(&original.1) && self.2.copy_of(&original.2)
    }

    proof fn lemma_copy_same_magnitude(a: &(A, B, C), b: &(A, B, C)) {
        A::lemma_copy_same_magnitude(&a.0, &b.0);
        B::lemma_copy_same_magnitude(&a.1, &b.1);
        C::lemma_copy_same_magnitude(&a.2, &b.2);
    }

    open spec fn magnitude(&self) -> nat {
        larger(larger(self.0.magnitude(), self.1.magnitude()), self.2.magnitude())
    }

    fn grow(rng: &mut StdRng, size: u64) -> (r: (A, B, C))
        ensures
            r.0.magnitude() <= size,
            r.1.magnitude() <= size,
            r.2.magnitude() <= size,
    {
        let x0 = A::grow(rng, size);
        let x1 = B::grow(rng, size);
        let x2 = C::grow(rng, size);
        (x0, x1, x2)
    }

    /// Shrinks one component, chosen uniformly at random, and copies the others.
    fn shrink(rng: &mut StdRng, value: &(A, B, C)) -> (r: (A, B, C))
        ensures
            ({
                ||| {
                    &&& r.0.magnitude() <= value.0.magnitude()
                    &&& r.1.copy_of(&value.1)
                    &&& r.2.copy_of(&value.2)
                }
                ||| {
                    &&& r.1.magnitude() <= value.1.magnitude()
                    &&& r.0.copy_of(&value.0)
                    &&& r.2.copy_of(&value.2)
                }
                ||| {
                    &&& r.2.magnitude() <= value.2.magnitude()
                    &&& r.0.copy_of(&value.0)
                    &&& r.1.copy_of(&value.1)
                }
            }),
    {
        let k = index_below(rng, 3);
        let x0 = if k == 0 { A::shrink(rng, &value.0) } else { value.0.duplicate() };
        let x1 = if k == 1 { B::shrink(rng, &value.1) } else { value.1.duplicate() };
        let x2 = if k == 2 { C::shrink(rng, &value.2) } else { value.2.duplicate() };
        (x0, x1, x2)
    }

    fn duplicate(&self) -> (r: (A, B, C)) {
        (self.0.duplicate(), self.1.duplicate(), self.2.duplicate())
    }
}

impl<A: Arbitrary, B: Arbitrary, C: Arbitrary, D: Arbitrary> Arbitrary for (A, B, C, D) {
    open spec fn copy_of(&self, original: &(A, B, C, D)) -> bool {
        self.0.copy_of(&original.0) && self.1.copy_of(&original.1) && self.2.copy_of(&original.2) && self.3.copy_of(&original.3)
    }

    proof fn lemma_copy_same_magnitude(a: &(A, B, C, D), b: &(A, B, C, D)) {
        A::lemma_copy_same_magnitude(&a.0, &b.0);
        B::lemma_copy_same_magnitude(&a.1, &b.1);
        C::lemma_copy_same_magnitude(&a.2, &b.2);
        D::lemma_copy_same_magnitude(&a.3, &b.3);
    }

    open spec fn magnitude(&self) -> nat {
        larger(larger(larger(self.0.magnitude(), self.1.magnitude()), self.2.magnitude()), self.3.magnitude())
    }

    fn grow(rng: &mut StdRng, size: u64) -> (r: (A, B, C, D))
        ensures
            r.0.magnitude() <= size,
            r.1.magnitude() <= size,
            r.2.magnitude() <= size,
            r.3.magnitude() <= size,
    {
        let x0 = A::grow(rng, size);
        let x1 = B::grow(rng, size);
        let x2 = C::grow(rng, size);
        let x3 = D::grow(rng, size);
        (x0, x1, x2, x3)
    }

    /// Shrinks one component, chosen uniformly at random, and copies the others.
    fn shrink(rng: &mut StdRng, value: &(A, B, C, D)) -> (r: (A, B, C, D))
        ensures
            ({
                ||| {
                    &&& r.0.magnitude() <= value.0.magnitude()
                    &&& r.1.copy_of(&value.1)
                    &&& r.2.copy_of(&value.2)
                    &&& r.3.copy_of(&value.3)
                }
                ||| {
                    &&& r.1.magnitude() <= value.1.magnitude()
                    &&& r.0.copy_of(&value.0)
                    &&& r.2.copy_of(&value.2)
                    &&& r.3.copy_of(&value.3)
                }
                ||| {
                    &&& r.2.magnitude() <= value.2.magnitude()
                    &&& r.0.copy_of(&value.0)
                    &&& r.1.copy_of(&value.1)
                    &&& r.3.copy_of(&value.3)
                }
                ||| {
                    &&& r.3.magnitude() <= value.3.magnitude()
                    &&& r.0.copy_of(&value.0)
                    &&& r.1.copy_of(&value.1)
                    &&& r.2.copy_of(&value.2)
                }
            }),
    {
        let k = index_below(rng, 4);
        let x0 = if k == 0 { A::shrink(rng, &value.0) } else { value.0.duplicate() };
        let x1 = if k == 1 { B::shrink(rng, &value.1) } else { value.1.duplicate() };
        let x2 = if k == 2 { C::shrink(rng, &value.2) } else { value.2.duplicate() };
        let x3 = if k == 3 { D::shrink(rng, &value.3) } else { value.3.duplicate() };
        (x0, x1, x2, x3)
    }

    fn duplicate(&self) -> (r: (A, B, C, D)) {
        (self.0.duplicate(), self.1.duplicate(), self.2.duplicate(), self.3.duplicate())
    }
}

impl<A: Arbitrary, B: Arbitrary, C: Arbitrary, D: Arbitrary, E: Arbitrary> Arbitrary for (A, B, C, D, E) {
    open spec fn copy_of(&self, original: &(A, B, C, D, E)) -> bool {
        self.0.copy_of(&original.0) && self.1.copy_of(&original.1) && self.2.copy_of(&original.2) && self.3.copy_of(&original.3) && self.4.copy_of(&original.4)
    }

    proof fn lemma_copy_same_magnitude(a: &(A, B, C, D, E), b: &(A, B, C, D, E)) {
        A::lemma_copy_same_magnitude(&a.0, &b.0);
        B::lemma_copy_same_magnitude(&a.1, &b.1);
        C::lemma_copy_same_magnitude(&a.2, &b.2);
        D::lemma_copy_same_magnitude(&a.3, &b.3);
        E::lemma_copy_same_magnitude(&a.4, &b.4);
    }

    open spec fn magnitude(&self) -> nat {
        larger(larger(larger(larger(self.0.magnitude(), self.1.magnitude()), self.2.magnitude()), self.3.magnitude()), self.4.magnitude())
    }

    fn grow(rng: &mut StdRng, size: u64) -> (r: (A, B, C, D, E))
        ensures
            r.0.magnitude() <= size,
            r.1.magnitude() <= size,
            r.2.magnitude() <= size,
            r.3.magnitude() <= size,
            r.4.magnitude() <= size,
    {
        let x0 = A::grow(rng, size);
        let x1 = B::grow(rng, size);
        let x2 = C::grow(rng, size);
        let x3 = D::grow(rng, size);
        let x4 = E::grow(rng, size);
        (x0, x1, x2, x3, x4)
    }

    /// Shrinks one component, chosen uniformly at random, and copies the others.
    fn shrink(rng: &mut StdRng, value: &(A, B, C, D, E)) -> (r: (A, B, C, D, E))
        ensures
            ({
                ||| {
                    &&& r.0.magnitude() <= value.0.magnitude()
                    &&& r.1.copy_of(&value.1)
                    &&& r.2.copy_of(&value.2)
                    &&& r.3.copy_of(&value.3)
                    &&& r.4.copy_of(&value.4)
                }
                ||| {
                    &&& r.1.magnitude() <= value.1.magnitude()
                    &&& r.0.copy_of(&value.0)
                    &&& r.2.copy_of(&value.2)
                    &&& r.3.copy_of(&value.3)
                    &&& r.4.copy_of(&value.4)
                }
                ||| {
                    &&& r.2.magnitude() <= value.2.magnitude()
                    &&& r.0.copy_of(&value.0)
                    &&& r.1.copy_of(&value.1)
                    &&& r.3.copy_of(&value.3)
                    &&& r.4.copy_of(&value.4)
                }
                ||| {
                    &&& r.3.magnitude() <= value.3.magnitude()
                    &&& r.0.copy_of(&value.0)
                    &&& r.1.copy_of(&value.1)
                    &&& r.2.copy_of(&value.2)
                    &&& r.4.copy_of(&value.4)
                }
                ||| {
                    &&& r.4.magnitude() <= value.4.magnitude()
                    &&& r.0.copy_of(&value.0)
                    &&& r.1.copy_of(&value.1)
                    &&& r.2.copy_of(&value.2)
                    &&& r.3.copy_of(&value.3)
                }
            }),
    {
        let k = index_below(rng, 5);
        let x0 = if k == 0 { A::shrink(rng, &value.0) } else { value.0.duplicate() };
        let x1 = if k == 1 { B::shrink(rng, &value.1) } else { value.1.duplicate() };
        let x2 = if k == 2 { C::shrink(rng, &value.2) } else { value.2.duplicate() };
        let x3 = if k == 3 { D::shrink(rng, &value.3) } else { value.3.duplicate() };
        let x4 = if k == 4 { E::shrink(rng, &value.4) } else { value.4.duplicate() };
        (x0, x1, x2, x3, x4)
    }

    fn duplicate(&self) -> (r: (A, B, C, D, E)) {
        (self.0.duplicate(), self.1.duplicate(), self.2.duplicate(), self.3.duplicate(), self.4.duplicate())
    }
}

} // verus!
