//! How narrative-event and story-event fields are written to the graph
//! store and read back: absent values stand as "" or -1, IDs as UUID text,
//! and a trigger rule as its name.

use crate::ids::{parse_uuid, uuid_parsed, uuid_text, uuid_to_string};
use crate::text::{
    bounded_decimal, decimal_round_trip, decimal_text, format_u64, is_digit,
    lemma_decimal_text_digits, parse_u32, str_eq, to_owned_string, unsigned_decimal,
};
use vstd::prelude::*;

verus! {

/// How many of an event's trigger conditions must hold.
#[derive(Clone, Copy, Debug, PartialEq, Eq, Structural)]
pub enum TriggerLogic {
    All,
    Any,
    AtLeast(u32),
}

/// The text a trigger rule is stored as (what `{:?}` writes).
pub open spec fn trigger_logic_text(t: TriggerLogic) -> Seq<char> {
    match t {
        TriggerLogic::All => "All"@,
        TriggerLogic::Any => "Any"@,
        TriggerLogic::AtLeast(n) => "AtLeast("@ + decimal_text(n as nat) + ")"@,
    }
}

/// `s` with every leading copy of the non-empty `p` taken off (what
/// `str::trim_start_matches` does with a text pattern).
pub open spec fn strip_prefixes(s: Seq<char>, p: Seq<char>) -> Seq<char>
    decreases s.len(),
{
    if p.len() > 0 && s.len() >= p.len() && s.take(p.len() as int) == p {
        strip_prefixes(s.skip(p.len() as int), p)
    } else {
        s
    }
}

/// `s` with every trailing `c` taken off (what `str::trim_end_matches`
/// does with a character).
pub open spec fn strip_suffix_chars(s: Seq<char>, c: char) -> Seq<char>
    decreases s.len(),
{
    if s.len() > 0 && s.last() == c {
        strip_suffix_chars(s.drop_last(), c)
    } else {
        s
    }
}

/// The trigger rule a stored text stands for: "Any"; "AtLeast(n)" (a
/// count that does not read as a `u32` counts as 1); anything else is "All".
pub open spec fn trigger_logic_from(s: Seq<char>) -> TriggerLogic {
    let p = "AtLeast("@;
    if s == "Any"@ {
        TriggerLogic::Any
    } else if s.len() >= p.len() && s.take(p.len() as int) == p {
        let inner = strip_suffix_chars(strip_prefixes(s, p), ')');
        match bounded_decimal(inner, u32::MAX as nat) {
            Some(n) => TriggerLogic::AtLeast(n as u32),
            None => TriggerLogic::AtLeast(1),
        }
    } else {
        TriggerLogic::All
    }
}

fn starts_with(s: &str, p: &str) -> (r: bool)
    ensures
        r == (s@.len() >= p@.len() && s@.take(p@.len() as int) == p@),
{
    let n = s.unicode_len();
    let m = p.unicode_len();
    if n < m {
        return false;
    }
    let mut i: usize = 0;
    while i < m
        invariant
            n == s@.len(),
            m == p@.len(),
            m <= n,
            i <= m,
            forall|j: int| 0 <= j < i ==> s@[j] == p@[j],
        decreases m - i,
    {
        if s.get_char(i) != p.get_char(i) {
            assert(s@.take(m as int)[i as int] != p@[i as int]);
            return false;
        }
        i = i + 1;
    }
    assert(s@.take(m as int) =~= p@);
    true
}

fn strip_prefixes_exec(s: &str, p: &str) -> (r: String)
    requires
        p@.len() > 0,
    ensures
        r@ == strip_prefixes(s@, p@),
{
    let n = s.unicode_len();
    let m = p.unicode_len();
    let mut start: usize = 0;
    assert(s@.skip(0) == s@);
    while start <= n && n - start >= m && starts_with_at(s, start, p)
        invariant
            n == s@.len(),
            m == p@.len(),
            m > 0,
            start <= n,
            strip_prefixes(s@, p@) == strip_prefixes(s@.skip(start as int), p@),
        decreases n - start,
    {
        proof {
            let rest = s@.skip(start as int);
            assert(rest.skip(m as int) == s@.skip(start + m));
        }
        start = start + m;
    }
    let mut r = String::new();
    let mut i: usize = start;
    while i < n
        invariant
            n == s@.len(),
            start <= i <= n,
            r@ == s@.subrange(start as int, i as int),
        decreases n - i,
    {
        crate::text::push_char(&mut r, s.get_char(i));
        assert(s@.subrange(start as int, i + 1) == s@.subrange(start as int, i as int).push(
            s@[i as int],
        ));
        i = i + 1;
    }
    assert(s@.subrange(start as int, n as int) == s@.skip(start as int));
    r
}

fn starts_with_at(s: &str, start: usize, p: &str) -> (r: bool)
    requires
        start <= s@.len(),
        s@.len() - start >= p@.len(),
    ensures
        r == (s@.skip(start as int).take(p@.len() as int) == p@),
{
    let m = p.unicode_len();
    let n = s.unicode_len();
    let mut i: usize = 0;
    while i < m
        invariant
            m == p@.len(),
            n == s@.len(),
            start <= s@.len(),
            s@.len() - start >= m,
            i <= m,
            forall|j: int| 0 <= j < i ==> s@[start + j] == p@[j],
        decreases m - i,
    {
        if s.get_char(start + i) != p.get_char(i) {
            assert(s@.skip(start as int).take(m as int)[i as int] != p@[i as int]);
            return false;
        }
        i = i + 1;
    }
    assert(s@.skip(start as int).take(m as int) =~= p@);
    true
}

pub(crate) fn strip_suffix_chars_exec(s: &str, c: char) -> (r: String)
    ensures
        r@ == strip_suffix_chars(s@, c),
{
    let n = s.unicode_len();
    let mut end: usize = n;
    assert(s@.take(n as int) == s@);
    while end > 0 && s.get_char(end - 1) == c
        invariant
            n == s@.len(),
            end <= n,
            strip_suffix_chars(s@, c) == strip_suffix_chars(s@.take(end as int), c),
        decreases end,
    {
        assert(s@.take(end as int).drop_last() == s@.take(end - 1));
        end = end - 1;
    }
    let mut r = String::new();
    let mut i: usize = 0;
    while i < end
        invariant
            n == s@.len(),
            end <= n,
            i <= end,
            r@ == s@.take(i as int),
        decreases end - i,
    {
        crate::text::push_char(&mut r, s.get_char(i));
        assert(s@.take(i + 1) == s@.take(i as int).push(s@[i as int]));
        i = i + 1;
    }
    proof {
        if end > 0 {
            assert(s@.take(end as int).last() == s@[end - 1]);
        }
    }
    r
}

impl TriggerLogic {
    /// The text the rule is stored as.
    pub fn to_stored(&self) -> (r: String)
        ensures
            r@ == trigger_logic_text(*self),
    {
        match self {
            TriggerLogic::All => to_owned_string("All"),
            TriggerLogic::Any => to_owned_string("Any"),
            TriggerLogic::AtLeast(n) => {
                let mut r = to_owned_string("AtLeast(");
                let d = format_u64(*n as u64);
                crate::text::append_str(&mut r, d.as_str());
                crate::text::append_str(&mut r, ")");
                r
            },
        }
    }

    /// Reads a stored rule back.
    pub fn from_stored(s: &str) -> (t: TriggerLogic)
        ensures
            t == trigger_logic_from(s@),
    {
        if str_eq(s, "Any") {
            return TriggerLogic::Any;
        }
        proof {
            reveal_strlit("AtLeast(");
        }
        if starts_with(s, "AtLeast(") {
            let a = strip_prefixes_exec(s, "AtLeast(");
            let b = strip_suffix_chars_exec(a.as_str(), ')');
            match parse_u32(b.as_str()) {
                Some(n) => TriggerLogic::AtLeast(n),
                None => TriggerLogic::AtLeast(1),
            }
        } else {
            TriggerLogic::All
        }
    }
}

/// Reading a stored trigger rule gives back the rule that was stored.
pub proof fn trigger_logic_round_trip(t: TriggerLogic)
    ensures
        trigger_logic_from(trigger_logic_text(t)) == t,
{
    reveal_strlit("All");
    reveal_strlit("Any");
    reveal_strlit("AtLeast(");
    reveal_strlit(")");
    let p = "AtLeast("@;
    match t {
        TriggerLogic::All => {
            assert("All"@ != "Any"@) by {
                assert("All"@[1] != "Any"@[1]);
            }
        },
        TriggerLogic::Any => {},
        TriggerLogic::AtLeast(n) => {
            let d = decimal_text(n as nat);
            lemma_decimal_text_digits(n as nat);
            decimal_round_trip(n as nat);
            let s = p + d + ")"@;
            assert(s != "Any"@) by {
                assert(s.len() != "Any"@.len());
            }
            assert(s.take(p.len() as int) == p);
            let rest = s.skip(p.len() as int);
            assert(rest == d + ")"@);
            assert(is_digit(rest[0]));
            assert(strip_prefixes(rest, p) == rest) by {
                if rest.len() >= p.len() && rest.take(p.len() as int) == p {
                    assert(rest.take(p.len() as int)[0] == rest[0]);
                    assert(p[0] == 'A');
                }
            }
            assert(strip_prefixes(s, p) == rest);
            assert(rest.last() == ')');
            assert(rest.drop_last() == d);
            assert(d.last() != ')') by {
                assert(is_digit(d[d.len() - 1]));
            }
            assert(strip_suffix_chars(d, ')') == d);
            assert(strip_suffix_chars(rest, ')') == d);
        },
    }
}

/// An optional text as stored: the text, or "" when absent.
pub fn optional_text_to_stored(o: &Option<String>) -> (r: String)
    ensures
        r@ == (match o {
            Some(s) => s@,
            None => Seq::<char>::empty(),
        }),
{
    match o {
        Some(s) => s.clone(),
        None => String::new(),
    }
}

/// A stored optional text read back: "" is absent.
pub fn optional_text_from_stored(s: String) -> (r: Option<String>)
    ensures
        s@.len() == 0 ==> r is None,
        s@.len() > 0 ==> r == Some(s),
{
    if s.unicode_len() == 0 {
        None
    } else {
        Some(s)
    }
}

/// An optional count as stored: the count, or -1 when absent.
pub open spec fn optional_count_stored(o: Option<u32>) -> i64 {
    match o {
        Some(n) => n as i64,
        None => -1i64,
    }
}

/// A stored optional count read back: a negative number is absent, any
/// other is taken to 32 bits.
pub open spec fn optional_count_read(v: i64) -> Option<u32> {
    if v < 0 {
        None
    } else {
        Some(v as u32)
    }
}

/// Writes an optional count for the store.
pub fn optional_count_to_stored(o: Option<u32>) -> (r: i64)
    ensures
        r == optional_count_stored(o),
{
    match o {
        Some(n) => n as i64,
        None => -1,
    }
}

/// Reads a stored optional count back.
pub fn optional_count_from_stored(v: i64) -> (r: Option<u32>)
    ensures
        r == optional_count_read(v),
{
    if v < 0 {
        None
    } else {
        Some(v as u32)
    }
}

/// Reading back a stored optional count gives the count that was stored.
pub proof fn optional_count_round_trip(o: Option<u32>)
    ensures
        optional_count_read(optional_count_stored(o)) == o,
{
    match o {
        Some(n) => {
            assert((n as i64) as u32 == n) by (bit_vector);
        },
        None => {},
    }
}

/// The ID a stored text stands for: "" is none, and so is a text that is
/// no UUID.
pub open spec fn optional_id_read(s: Seq<char>) -> Option<u128> {
    if s.len() == 0 {
        None
    } else {
        uuid_parsed(s)
    }
}

/// An optional ID as stored: its UUID text, or "" when absent. Reading the
/// text back gives the ID again.
pub fn optional_id_to_stored(o: Option<u128>) -> (r: String)
    ensures
        r@ == (match o {
            Some(v) => uuid_text(v),
            None => Seq::<char>::empty(),
        }),
        optional_id_read(r@) == o,
{
    match o {
        Some(v) => uuid_to_string(v),
        None => String::new(),
    }
}

/// Reads a stored optional ID back.
pub fn optional_id_from_stored(s: &str) -> (r: Option<u128>)
    ensures
        r == optional_id_read(s@),
{
    if s.unicode_len() == 0 {
        None
    } else {
        parse_uuid(s)
    }
}

/// The IDs that a list of texts holds, in order; a text that is no UUID
/// is left out.
pub open spec fn parsed_ids(texts: Seq<String>) -> Seq<u128>
    decreases texts.len(),
{
    if texts.len() == 0 {
        Seq::empty()
    } else {
        let rest = parsed_ids(texts.drop_last());
        match uuid_parsed(texts.last()@) {
            Some(v) => rest.push(v),
            None => rest,
        }
    }
}

/// Reads the stored IDs of featured NPCs, skipping any that is no UUID.
pub fn ids_from_stored(texts: &Vec<String>) -> (r: Vec<u128>)
    ensures
        r@ == parsed_ids(texts@),
{
    let mut r: Vec<u128> = Vec::new();
    let mut i: usize = 0;
    while i < texts.len()
        invariant
            i <= texts@.len(),
            r@ == parsed_ids(texts@.take(i as int)),
        decreases texts@.len() - i,
    {
        assert(texts@.take(i + 1).drop_last() == texts@.take(i as int));
        match parse_uuid(texts[i].as_str()) {
            Some(v) => r.push(v),
            None => {},
        }
        i = i + 1;
    }
    assert(texts@.take(i as int) == texts@);
    r
}

/// Writes IDs for the store as their UUID texts. Reading the texts back
/// gives the IDs again, in order.
pub fn ids_to_stored(ids: &Vec<u128>) -> (r: Vec<String>)
    ensures
        r@.len() == ids@.len(),
        forall|i: int| 0 <= i < ids@.len() ==> (#[trigger] r@[i])@ == uuid_text(ids@[i]),
        parsed_ids(r@) == ids@,
{
    let mut r: Vec<String> = Vec::new();
    let mut i: usize = 0;
    while i < ids.len()
        invariant
            i <= ids@.len(),
            r@.len() == i,
            forall|j: int| 0 <= j < i ==> (#[trigger] r@[j])@ == uuid_text(ids@[j]),
            parsed_ids(r@) == ids@.take(i as int),
        decreases ids@.len() - i,
    {
        let t = uuid_to_string(ids[i]);
        let ghost before = r@;
        r.push(t);
        proof {
            assert(r@.drop_last() == before);
            assert(ids@.take(i + 1) == ids@.take(i as int).push(ids@[i as int]));
        }
        i = i + 1;
    }
    assert(ids@.take(i as int) == ids@);
    r
}


/// A stored optional text that the store may also lack: absent or empty
/// is no text.
pub fn optional_text_from_node(o: Option<String>) -> (r: Option<String>)
    ensures
        match o {
            Some(t) => if t@.len() == 0 {
                r is None
            } else {
                r == Some(t)
            },
            None => r is None,
        },
{
    match o {
        Some(t) => if t.unicode_len() == 0 {
            None
        } else {
            Some(t)
        },
        None => None,
    }
}

/// Whether a stored character sheet holds data: neither "" nor "{}".
pub fn stored_sheet_present(s: &str) -> (r: bool)
    ensures
        r == (s@.len() > 0 && s@ != "{}"@),
{
    s.unicode_len() > 0 && !str_eq(s, "{}")
}

} // verus!
