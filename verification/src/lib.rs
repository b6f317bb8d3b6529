//! Library shared by the game's client and server: a small-vector, the
//! lock protocol of the shared boxes, game errors, condition checks, the
//! channel-connect message, configuration records and the rules of the
//! native logger.
use vstd::prelude::*;
use vstd::laws_cmp::obeys_partial_cmp_spec_properties;
use vstd::std_specs::cmp::{PartialEqSpec, PartialOrdIs, PartialOrdSpec};

pub mod boxed;
pub mod error;
pub mod libconfig;
pub mod logger;
pub mod proto;
pub mod text;
pub mod vec;

pub use error::{GameError, GameResult, ToGameResult, game_result, send_err, send_err_result};
pub use vec::Vector;

verus! {

/// The session token of the `sequence`-th session of worker `worker_token`:
/// the low 32 bits of the sequence number below the low 32 bits of the worker.
pub fn session_token_of(sequence: u64, worker_token: u64) -> (t: u64)
    ensures
        t == (sequence & 0xFFFF_FFFF) | ((worker_token & 0xFFFF_FFFF) << 32),
        t % 0x1_0000_0000 == sequence % 0x1_0000_0000,
        t / 0x1_0000_0000 == worker_token % 0x1_0000_0000,
{
    let t = (sequence & 0xFFFF_FFFF) | ((worker_token & 0xFFFF_FFFF) << 32);
    assert(((sequence & 0xFFFF_FFFF) | ((worker_token & 0xFFFF_FFFF) << 32)) % 0x1_0000_0000
        == sequence % 0x1_0000_0000) by (bit_vector);
    assert(((sequence & 0xFFFF_FFFF) | ((worker_token & 0xFFFF_FFFF) << 32)) / 0x1_0000_0000
        == worker_token % 0x1_0000_0000) by (bit_vector);
    t
}

/// Two sessions get the same token exactly when their sequence numbers agree
/// in the low 32 bits and their workers agree in the low 32 bits.
pub proof fn law_session_token_injective(s1: u64, w1: u64, s2: u64, w2: u64)
    ensures
        ((s1 & 0xFFFF_FFFF) | ((w1 & 0xFFFF_FFFF) << 32)) == ((s2 & 0xFFFF_FFFF) | ((w2 & 0xFFFF_FFFF)
            << 32)) <==> (s1 % 0x1_0000_0000 == s2 % 0x1_0000_0000 && w1 % 0x1_0000_0000 == w2
            % 0x1_0000_0000),
{
    assert(((s1 & 0xFFFF_FFFF) | ((w1 & 0xFFFF_FFFF) << 32)) == ((s2 & 0xFFFF_FFFF) | ((w2
        & 0xFFFF_FFFF) << 32)) <==> (s1 % 0x1_0000_0000 == s2 % 0x1_0000_0000 && w1 % 0x1_0000_0000
        == w2 % 0x1_0000_0000)) by (bit_vector);
}

/// `needle` occurs in `haystack` as a run of consecutive characters.
pub open spec fn occurs_in(needle: Seq<char>, haystack: Seq<char>) -> bool {
    exists|i: int|
        0 <= i && i + needle.len() <= haystack.len() && #[trigger] haystack.subrange(i, i + needle.len())
            == needle
}

/// Whether `needle` occurs in `haystack`, found by trying each position in
/// turn.
fn contains_chars(haystack: &str, needle: &str) -> (r: bool)
    ensures
        r == occurs_in(needle@, haystack@),
{
    let h = text::chars_of(haystack);
    let p = text::chars_of(needle);
    let n = h.len();
    let m = p.len();
    if m > n {
        return false;
    }
    if m == 0 {
        assert(haystack@.subrange(0, 0 + needle@.len() as int) =~= needle@);
        return true;
    }
    let mut i: usize = 0;
    while i <= n - m
        invariant
            h@ == haystack@,
            p@ == needle@,
            n == h@.len(),
            m == p@.len(),
            1 <= m <= n,
            i <= n - m + 1,
            forall|j: int| 0 <= j < i ==> #[trigger] h@.subrange(j, j + m) != p@,
        decreases n - m + 1 - i,
    {
        if text::occurs_at(&h, i, &p) {
            assert(haystack@.subrange(i as int, i + needle@.len()) == needle@);
            return true;
        }
        i = i + 1;
    }
    false
}

/// Whether a file whose extension is `extension` (`None` when it has none or
/// it is not valid UTF-8) is listed for `pattern`: an empty pattern lists
/// every file, another one the files whose extension occurs in it.
pub fn file_listed(pattern: &str, extension: Option<&str>) -> (r: bool)
    ensures
        r == (pattern@.len() == 0 || (extension matches Some(e) && occurs_in(e@, pattern@))),
{
    if !pattern.is_empty() {
        match extension {
            Some(e) => contains_chars(pattern, e),
            None => false,
        }
    } else {
        true
    }
}

/// `p` with every backslash turned into a slash.
pub open spec fn forward_slashes(p: Seq<char>) -> Seq<char> {
    p.map_values(|c: char| if c == '\\' { '/' } else { c })
}

/// A listed path with slashes only: every backslash becomes a slash.
pub fn normalize_path(path: &str) -> (r: String)
    ensures
        r@ == forward_slashes(path@),
{
    let chars = text::chars_of(path);
    let n = chars.len();
    let mut r = String::new();
    let mut i: usize = 0;
    while i < n
        invariant
            n == path@.len(),
            chars@ == path@,
            i <= n,
            r@ == forward_slashes(path@.take(i as int)),
        decreases n - i,
    {
        let c = chars[i];
        let d = if c == '\\' {
            '/'
        } else {
            c
        };
        text::push_char(&mut r, d);
        assert(forward_slashes(path@.take(i + 1)) =~= forward_slashes(path@.take(i as int)).push(d));
        i = i + 1;
    }
    assert(path@.take(n as int) =~= path@);
    r
}

/// A normalized path holds no backslash, so normalizing it again (as the
/// second replacement of doubled backslashes does) changes nothing.
pub proof fn law_normalize_idempotent(p: Seq<char>)
    ensures
        forall|i: int| 0 <= i < forward_slashes(p).len() ==> forward_slashes(p)[i] != '\\',
        forward_slashes(forward_slashes(p)) == forward_slashes(p),
{
    assert(forward_slashes(forward_slashes(p)) =~= forward_slashes(p));
}

/// A condition on a value: the stored value compared with the checked one.
#[derive(Debug, Copy, Clone, PartialEq, Eq)]
pub enum ConditionCheck<T: Eq + Ord> {
    Bigger(T),
    Equal(T),
    Smaller(T),
    BiggerOrEqual(T),
    SmallerOrEqual(T),
    NotEqual(T),
}

impl<T: Eq + Ord> ConditionCheck<T> {
    /// The check that `condition` names: 1 at least, 2 at most, 3 bigger,
    /// 4 smaller, 5 equal, anything else not equal.
    pub open spec fn spec_new(condition: i32, check_value: T) -> ConditionCheck<T> {
        if condition == 1 {
            ConditionCheck::BiggerOrEqual(check_value)
        } else if condition == 2 {
            ConditionCheck::SmallerOrEqual(check_value)
        } else if condition == 3 {
            ConditionCheck::Bigger(check_value)
        } else if condition == 4 {
            ConditionCheck::Smaller(check_value)
        } else if condition == 5 {
            ConditionCheck::Equal(check_value)
        } else {
            ConditionCheck::NotEqual(check_value)
        }
    }

    /// Whether `b` passes: the stored value `a` stands in the named relation
    /// to `b` (`Bigger(a)` passes when `a > b`).
    pub open spec fn spec_valid(self, b: T) -> bool {
        match self {
            ConditionCheck::Bigger(a) => a.is_gt(&b),
            ConditionCheck::Equal(a) => a.eq_spec(&b),
            ConditionCheck::Smaller(a) => a.is_lt(&b),
            ConditionCheck::BiggerOrEqual(a) => a.is_ge(&b),
            ConditionCheck::SmallerOrEqual(a) => a.is_le(&b),
            ConditionCheck::NotEqual(a) => !a.eq_spec(&b),
        }
    }

    /// The check that `condition` names.
    pub fn new(condition: i32, check_value: T) -> (r: Self)
        ensures
            r == Self::spec_new(condition, check_value),
    {
        match condition {
            1 => ConditionCheck::BiggerOrEqual(check_value),
            2 => ConditionCheck::SmallerOrEqual(check_value),
            3 => ConditionCheck::Bigger(check_value),
            4 => ConditionCheck::Smaller(check_value),
            5 => ConditionCheck::Equal(check_value),
            _ => ConditionCheck::NotEqual(check_value),
        }
    }

    /// Whether `b` passes the check; exact for types whose comparisons
    /// follow their specifications (all integer types do).
    pub fn valid(&self, b: &T) -> (r: bool)
        ensures
            T::obeys_partial_cmp_spec() && T::obeys_eq_spec() ==> r == self.spec_valid(*b),
    {
        match self {
            ConditionCheck::Bigger(a) => a > b,
            ConditionCheck::Equal(a) => a == b,
            ConditionCheck::Smaller(a) => a < b,
            ConditionCheck::BiggerOrEqual(a) => a >= b,
            ConditionCheck::SmallerOrEqual(a) => a <= b,
            ConditionCheck::NotEqual(a) => a != b,
        }
    }
}

/// For types whose comparisons obey the usual laws, the checks agree with
/// each other: `Bigger(a)` passes `b` exactly when `Smaller(b)` passes `a`;
/// `BiggerOrEqual(a)` passes exactly what `Bigger(a)` or `Equal(a)` passes,
/// and `SmallerOrEqual(a)` what `Smaller(a)` or `Equal(a)` passes;
/// `NotEqual(a)` passes exactly what `Equal(a)` does not.
pub proof fn law_checks_agree<T: Eq + Ord>(a: T, b: T)
    requires
        obeys_partial_cmp_spec_properties::<T>(),
    ensures
        ConditionCheck::Bigger(a).spec_valid(b) == ConditionCheck::Smaller(b).spec_valid(a),
        ConditionCheck::BiggerOrEqual(a).spec_valid(b) == (ConditionCheck::Bigger(a).spec_valid(b)
            || ConditionCheck::Equal(a).spec_valid(b)),
        ConditionCheck::SmallerOrEqual(a).spec_valid(b) == (ConditionCheck::Smaller(a).spec_valid(b)
            || ConditionCheck::Equal(a).spec_valid(b)),
        ConditionCheck::NotEqual(a).spec_valid(b) == !ConditionCheck::Equal(a).spec_valid(b),
{
    reveal(obeys_partial_cmp_spec_properties);
}


/// On integers the check named by a code passes `b` exactly when the stored
/// value `a` stands in that relation to `b`: 1 `a >= b`, 2 `a <= b`,
/// 3 `a > b`, 4 `a < b`, 5 `a == b`, any other code `a != b`.
pub proof fn law_condition_codes(condition: i32, a: i64, b: i64)
    ensures
        ConditionCheck::<i64>::spec_new(condition, a).spec_valid(b) == (if condition == 1 {
            a >= b
        } else if condition == 2 {
            a <= b
        } else if condition == 3 {
            a > b
        } else if condition == 4 {
            a < b
        } else if condition == 5 {
            a == b
        } else {
            a != b
        }),
{
}

} // verus!
