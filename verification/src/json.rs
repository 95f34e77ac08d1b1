//! The JSON wire format of the two records.
//!
//! Only the shapes that actually travel between the form and the service are
//! given meaning: a single flat object whose member values are strings or the
//! literals `true` / `false`. Strings support the short escapes
//! `\" \\ \/ \b \f \n \r \t`; an unescaped control character or an
//! unsupported escape makes the document invalid. Unknown keys are allowed
//! and ignored; a duplicated key among those a record needs makes the
//! document invalid.

use vstd::prelude::*;

verus! {

/// JSON insignificant whitespace.
pub open spec fn json_ws(c: char) -> bool {
    c == ' ' || c == '\t' || c == '\n' || c == '\r'
}

/// A character that may not appear raw inside a JSON string.
pub open spec fn json_ctrl(c: char) -> bool {
    (c as u32) < 32
}

/// The character a short escape `\x` stands for, or `None` when `x` is not
/// one of the supported escapes.
pub open spec fn unescape(c: char) -> Option<char> {
    if c == '"' {
        Some('"')
    } else if c == '\\' {
        Some('\\')
    } else if c == '/' {
        Some('/')
    } else if c == 'n' {
        Some('\n')
    } else if c == 'r' {
        Some('\r')
    } else if c == 't' {
        Some('\t')
    } else if c == 'b' {
        Some('\u{8}')
    } else if c == 'f' {
        Some('\u{c}')
    } else {
        None
    }
}

/// Where the scanner stands inside a document. The accepted grammar is flat,
/// so one phase (plus the accumulators beside it) is all the state there is.
#[derive(Clone, Copy, PartialEq, Eq, Structural)]
pub enum Phase {
    /// Before the opening brace.
    Start,
    /// After the opening brace; a key or the closing brace may follow.
    BeforeFirstItem,
    /// After a comma; a key must follow.
    BeforeKey,
    /// Inside a key string.
    InKey,
    /// Inside a key string, after a backslash.
    KeyEsc,
    /// After a key; a colon must follow.
    AfterKey,
    /// After a colon; a string or boolean value must follow.
    BeforeVal,
    /// Inside a string value.
    InStr,
    /// Inside a string value, after a backslash.
    StrEsc,
    /// Inside `true` or `false`.
    InLit,
    /// After a member; a comma or the closing brace may follow.
    AfterItem,
    /// After the closing brace; only whitespace may follow.
    Done,
}

/// A member value: the accepted grammar has only strings and booleans.
pub ghost enum ScalarView {
    Str(Seq<char>),
    Bool(bool),
}

/// The scanner state: the phase, the accumulators it fills while inside a
/// key, a string value or a literal, and the members collected so far.
#[verifier::ext_equal]
pub ghost struct ScanState {
    pub phase: Phase,
    /// The key being read, then the key of the member being read.
    pub key: Seq<char>,
    /// The string value being read.
    pub acc: Seq<char>,
    /// The characters of `true` / `false` still owed.
    pub lit_rest: Seq<char>,
    /// The boolean the current literal stands for.
    pub lit_val: bool,
    /// The members seen so far, in document order.
    pub pairs: Seq<(Seq<char>, ScalarView)>,
}

/// The scanner's initial state.
pub open spec fn init_state() -> ScanState {
    ScanState {
        phase: Phase::Start,
        key: Seq::empty(),
        acc: Seq::empty(),
        lit_rest: Seq::empty(),
        lit_val: false,
        pairs: Seq::empty(),
    }
}

/// One step of the scanner: the state after reading `c`, or `None` when `c`
/// cannot continue a valid document.
pub open spec fn step(st: ScanState, c: char) -> Option<ScanState> {
    match st.phase {
        Phase::Start => if c == '{' {
            Some(ScanState { phase: Phase::BeforeFirstItem, ..st })
        } else if json_ws(c) {
            Some(st)
        } else {
            None
        },
        Phase::BeforeFirstItem => if c == '"' {
            Some(ScanState { phase: Phase::InKey, key: Seq::empty(), ..st })
        } else if c == '}' {
            Some(ScanState { phase: Phase::Done, ..st })
        } else if json_ws(c) {
            Some(st)
        } else {
            None
        },
        Phase::BeforeKey => if c == '"' {
            Some(ScanState { phase: Phase::InKey, key: Seq::empty(), ..st })
        } else if json_ws(c) {
            Some(st)
        } else {
            None
        },
        Phase::InKey => if c == '"' {
            Some(ScanState { phase: Phase::AfterKey, ..st })
        } else if c == '\\' {
            Some(ScanState { phase: Phase::KeyEsc, ..st })
        } else if json_ctrl(c) {
            None
        } else {
            Some(ScanState { key: st.key.push(c), ..st })
        },
        Phase::KeyEsc => match unescape(c) {
            Some(d) => Some(ScanState { phase: Phase::InKey, key: st.key.push(d), ..st }),
            None => None,
        },
        Phase::AfterKey => if c == ':' {
            Some(ScanState { phase: Phase::BeforeVal, ..st })
        } else if json_ws(c) {
            Some(st)
        } else {
            None
        },
        Phase::BeforeVal => if c == '"' {
            Some(ScanState { phase: Phase::InStr, acc: Seq::empty(), ..st })
        } else if c == 't' {
            Some(
                ScanState {
                    phase: Phase::InLit,
                    lit_rest: seq!['r', 'u', 'e'],
                    lit_val: true,
                    ..st
                },
            )
        } else if c == 'f' {
            Some(
                ScanState {
                    phase: Phase::InLit,
                    lit_rest: seq!['a', 'l', 's', 'e'],
                    lit_val: false,
                    ..st
                },
            )
        } else if json_ws(c) {
            Some(st)
        } else {
            None
        },
        Phase::InStr => if c == '"' {
            Some(
                ScanState {
                    phase: Phase::AfterItem,
                    pairs: st.pairs.push((st.key, ScalarView::Str(st.acc))),
                    ..st
                },
            )
        } else if c == '\\' {
            Some(ScanState { phase: Phase::StrEsc, ..st })
        } else if json_ctrl(c) {
            None
        } else {
            Some(ScanState { acc: st.acc.push(c), ..st })
        },
        Phase::StrEsc => match unescape(c) {
            Some(d) => Some(ScanState { phase: Phase::InStr, acc: st.acc.push(d), ..st }),
            None => None,
        },
        Phase::InLit => if st.lit_rest.len() > 0 && c == st.lit_rest[0] {
            if st.lit_rest.len() == 1 {
                Some(
                    ScanState {
                        phase: Phase::AfterItem,
                        lit_rest: Seq::empty(),
                        pairs: st.pairs.push((st.key, ScalarView::Bool(st.lit_val))),
                        ..st
                    },
                )
            } else {
                Some(ScanState { lit_rest: st.lit_rest.skip(1), ..st })
            }
        } else {
            None
        },
        Phase::AfterItem => if c == ',' {
            Some(ScanState { phase: Phase::BeforeKey, ..st })
        } else if c == '}' {
            Some(ScanState { phase: Phase::Done, ..st })
        } else if json_ws(c) {
            Some(st)
        } else {
            None
        },
        Phase::Done => if json_ws(c) {
            Some(st)
        } else {
            None
        },
    }
}

/// The scanner run from `st` over the characters of `s` from position `i`
/// on: the final state, or `None` when some character cannot be read.
pub open spec fn run_from(st: ScanState, s: Seq<char>, i: int) -> Option<ScanState>
    decreases s.len() - i,
{
    if i < 0 || i >= s.len() {
        Some(st)
    } else {
        match step(st, s[i]) {
            None => None,
            Some(st2) => run_from(st2, s, i + 1),
        }
    }
}

/// The members of the document `s`, in order, or `None` when `s` is not a
/// valid document of the accepted grammar.
pub open spec fn doc_pairs(s: Seq<char>) -> Option<Seq<(Seq<char>, ScalarView)>> {
    match run_from(init_state(), s, 0) {
        None => None,
        Some(st) => if st.phase == Phase::Done {
            Some(st.pairs)
        } else {
            None
        },
    }
}

/// Executable member value, mirroring [`ScalarView`].
pub enum Scalar {
    Str(String),
    Bool(bool),
}

impl View for Scalar {
    type V = ScalarView;

    open spec fn view(&self) -> ScalarView {
        match self {
            Scalar::Str(s) => ScalarView::Str(s@),
            Scalar::Bool(b) => ScalarView::Bool(*b),
        }
    }
}

/// The members a scan collected, as the ghost machine sees them.
pub open spec fn pairs_view(ps: Seq<(String, Scalar)>) -> Seq<(Seq<char>, ScalarView)> {
    ps.map_values(|p: (String, Scalar)| (p.0@, p.1@))
}

/// Executable scanner state, mirroring [`ScanState`].
pub struct Scan {
    pub phase: Phase,
    pub key: Vec<char>,
    pub acc: Vec<char>,
    pub lit_rest: Vec<char>,
    pub lit_val: bool,
    pub pairs: Vec<(String, Scalar)>,
}

impl View for Scan {
    type V = ScanState;

    open spec fn view(&self) -> ScanState {
        ScanState {
            phase: self.phase,
            key: self.key@,
            acc: self.acc@,
            lit_rest: self.lit_rest@,
            lit_val: self.lit_val,
            pairs: pairs_view(self.pairs@),
        }
    }
}

fn char_is_ws(c: char) -> (r: bool)
    ensures
        r == json_ws(c),
{
    c == ' ' || c == '\t' || c == '\n' || c == '\r'
}

fn char_is_ctrl(c: char) -> (r: bool)
    ensures
        r == json_ctrl(c),
{
    (c as u32) < 32
}

fn unescape_exec(c: char) -> (r: Option<char>)
    ensures
        r == unescape(c),
{
    if c == '"' {
        Some('"')
    } else if c == '\\' {
        Some('\\')
    } else if c == '/' {
        Some('/')
    } else if c == 'n' {
        Some('\n')
    } else if c == 'r' {
        Some('\r')
    } else if c == 't' {
        Some('\t')
    } else if c == 'b' {
        Some('\u{8}')
    } else if c == 'f' {
        Some('\u{c}')
    } else {
        None
    }
}

fn step_exec(st: Scan, c: char) -> (r: Option<Scan>)
    ensures
        match step(st@, c) {
            Some(t) => r matches Some(u) && u@ == t,
            None => r is None,
        },
{
    let ghost st0 = st@;
    let mut st = st;
    match st.phase {
        Phase::Start => {
            if c == '{' {
                st.phase = Phase::BeforeFirstItem;
                Some(st)
            } else if char_is_ws(c) {
                Some(st)
            } else {
                None
            }
        },
        Phase::BeforeFirstItem => {
            if c == '"' {
                st.phase = Phase::InKey;
                st.key = Vec::new();
                Some(st)
            } else if c == '}' {
                st.phase = Phase::Done;
                Some(st)
            } else if char_is_ws(c) {
                Some(st)
            } else {
                None
            }
        },
        Phase::BeforeKey => {
            if c == '"' {
                st.phase = Phase::InKey;
                st.key = Vec::new();
                Some(st)
            } else if char_is_ws(c) {
                Some(st)
            } else {
                None
            }
        },
        Phase::InKey => {
            if c == '"' {
                st.phase = Phase::AfterKey;
                Some(st)
            } else if c == '\\' {
                st.phase = Phase::KeyEsc;
                Some(st)
            } else if char_is_ctrl(c) {
                None
            } else {
                st.key.push(c);
                Some(st)
            }
        },
        Phase::KeyEsc => {
            match unescape_exec(c) {
                Some(d) => {
                    st.phase = Phase::InKey;
                    st.key.push(d);
                    Some(st)
                },
                None => None,
            }
        },
        Phase::AfterKey => {
            if c == ':' {
                st.phase = Phase::BeforeVal;
                Some(st)
            } else if char_is_ws(c) {
                Some(st)
            } else {
                None
            }
        },
        Phase::BeforeVal => {
            if c == '"' {
                st.phase = Phase::InStr;
                st.acc = Vec::new();
                Some(st)
            } else if c == 't' {
                st.phase = Phase::InLit;
                st.lit_rest = vec!['r', 'u', 'e'];
                st.lit_val = true;
                assert(st@.lit_rest =~= (seq!['r', 'u', 'e']));
                Some(st)
            } else if c == 'f' {
                st.phase = Phase::InLit;
                st.lit_rest = vec!['a', 'l', 's', 'e'];
                st.lit_val = false;
                assert(st@.lit_rest =~= (seq!['a', 'l', 's', 'e']));
                Some(st)
            } else if char_is_ws(c) {
                Some(st)
            } else {
                None
            }
        },
        Phase::InStr => {
            if c == '"' {
                st.phase = Phase::AfterItem;
                let key = crate::text::chars_to_string(&st.key);
                let val = crate::text::chars_to_string(&st.acc);
                st.pairs.push((key, Scalar::Str(val)));
                proof {
                    assert(pairs_view(st.pairs@) =~= st0.pairs.push(
                        (st0.key, ScalarView::Str(st0.acc)),
                    ));
                }
                Some(st)
            } else if c == '\\' {
                st.phase = Phase::StrEsc;
                Some(st)
            } else if char_is_ctrl(c) {
                None
            } else {
                st.acc.push(c);
                Some(st)
            }
        },
        Phase::StrEsc => {
            match unescape_exec(c) {
                Some(d) => {
                    st.phase = Phase::InStr;
                    st.acc.push(d);
                    Some(st)
                },
                None => None,
            }
        },
        Phase::InLit => {
            if st.lit_rest.len() > 0 && c == st.lit_rest[0] {
                if st.lit_rest.len() == 1 {
                    st.phase = Phase::AfterItem;
                    st.lit_rest = Vec::new();
                    let key = crate::text::chars_to_string(&st.key);
                    st.pairs.push((key, Scalar::Bool(st.lit_val)));
                    proof {
                        assert(pairs_view(st.pairs@) =~= st0.pairs.push(
                            (st0.key, ScalarView::Bool(st0.lit_val)),
                        ));
                    }
                    Some(st)
                } else {
                    st.lit_rest.remove(0);
                    assert(st@.lit_rest =~= st0.lit_rest.skip(1));
                    Some(st)
                }
            } else {
                None
            }
        },
        Phase::AfterItem => {
            if c == ',' {
                st.phase = Phase::BeforeKey;
                Some(st)
            } else if c == '}' {
                st.phase = Phase::Done;
                Some(st)
            } else if char_is_ws(c) {
                Some(st)
            } else {
                None
            }
        },
        Phase::Done => {
            if char_is_ws(c) {
                Some(st)
            } else {
                None
            }
        },
    }
}

/// Scans a whole document: the collected members, or `None` when the
/// document is not valid.
pub fn scan_doc(s: &str) -> (r: Option<Vec<(String, Scalar)>>)
    ensures
        (r is Some) == (doc_pairs(s@) is Some),
        r matches Some(ps) ==> Some(pairs_view(ps@)) == doc_pairs(s@),
{
    let n: usize = s.unicode_len();
    let mut st = Scan {
        phase: Phase::Start,
        key: Vec::new(),
        acc: Vec::new(),
        lit_rest: Vec::new(),
        lit_val: false,
        pairs: Vec::new(),
    };
    assert(st@ =~= init_state());
    let mut i: usize = 0;
    while i < n
        invariant
            0 <= i <= n,
            n == s@.len(),
            run_from(st@, s@, i as int) == run_from(init_state(), s@, 0),
        decreases n - i,
    {
        let c = s.get_char(i);
        match step_exec(st, c) {
            Some(st2) => {
                st = st2;
            },
            None => {
                return None;
            },
        }
        i += 1;
    }
    if st.phase == Phase::Done {
        Some(st.pairs)
    } else {
        None
    }
}

/// How many members of `ps` carry the key `k`.
pub open spec fn key_count(ps: Seq<(Seq<char>, ScalarView)>, k: Seq<char>) -> nat
    decreases ps.len(),
{
    if ps.len() == 0 {
        0
    } else {
        key_count(ps.drop_last(), k) + if ps.last().0 == k {
            1nat
        } else {
            0nat
        }
    }
}

/// The value of the last member of `ps` carrying the key `k` (meaningful
/// only when such a member exists).
pub open spec fn entry_val(ps: Seq<(Seq<char>, ScalarView)>, k: Seq<char>) -> ScalarView
    decreases ps.len(),
{
    if ps.len() == 0 {
        arbitrary()
    } else if ps.last().0 == k {
        ps.last().1
    } else {
        entry_val(ps.drop_last(), k)
    }
}

/// The value of the member with key `k`, when exactly one member carries
/// that key; `None` on a missing or duplicated key. This is what a record
/// field is read from.
pub open spec fn unique_entry(ps: Seq<(Seq<char>, ScalarView)>, k: Seq<char>) -> Option<
    ScalarView,
> {
    if key_count(ps, k) == 1 {
        Some(entry_val(ps, k))
    } else {
        None
    }
}

/// Looks up the string member with key `k`: the copied string when exactly
/// one member carries `k` and its value is a string, `None` otherwise.
fn get_unique_str(ps: &Vec<(String, Scalar)>, k: &String) -> (r: Option<String>)
    ensures
        match unique_entry(pairs_view(ps@), k@) {
            Some(ScalarView::Str(v)) => r matches Some(s) && s@ == v,
            _ => r is None,
        },
{
    let ghost psv = pairs_view(ps@);
    let n = ps.len();
    let mut count: usize = 0;
    let mut idx: usize = 0;
    let mut j: usize = 0;
    while j < n
        invariant
            0 <= j <= n,
            n == ps@.len(),
            psv == pairs_view(ps@),
            count <= j,
            count == key_count(psv.take(j as int), k@),
            count >= 1 ==> idx < j && psv[idx as int].0 == k@ && entry_val(
                psv.take(j as int),
                k@,
            ) == psv[idx as int].1,
        decreases n - j,
    {
        proof {
            assert(psv.take(j + 1).drop_last() =~= psv.take(j as int));
            assert(psv.take(j + 1).last() == psv[j as int]);
        }
        if ps[j].0.eq(k) {
            count = count + 1;
            idx = j;
        }
        j += 1;
    }
    proof {
        assert(psv.take(n as int) =~= psv);
    }
    if count == 1 {
        match &ps[idx].1 {
            Scalar::Str(s) => Some(s.clone()),
            Scalar::Bool(_) => None,
        }
    } else {
        None
    }
}

/// Looks up the boolean member with key `k`, in the manner of
/// [`get_unique_str`].
fn get_unique_bool(ps: &Vec<(String, Scalar)>, k: &String) -> (r: Option<bool>)
    ensures
        match unique_entry(pairs_view(ps@), k@) {
            Some(ScalarView::Bool(v)) => r == Some(v),
            _ => r is None,
        },
{
    let ghost psv = pairs_view(ps@);
    let n = ps.len();
    let mut count: usize = 0;
    let mut idx: usize = 0;
    let mut j: usize = 0;
    while j < n
        invariant
            0 <= j <= n,
            n == ps@.len(),
            psv == pairs_view(ps@),
            count <= j,
            count == key_count(psv.take(j as int), k@),
            count >= 1 ==> idx < j && psv[idx as int].0 == k@ && entry_val(
                psv.take(j as int),
                k@,
            ) == psv[idx as int].1,
        decreases n - j,
    {
        proof {
            assert(psv.take(j + 1).drop_last() =~= psv.take(j as int));
            assert(psv.take(j + 1).last() == psv[j as int]);
        }
        if ps[j].0.eq(k) {
            count = count + 1;
            idx = j;
        }
        j += 1;
    }
    proof {
        assert(psv.take(n as int) =~= psv);
    }
    if count == 1 {
        match &ps[idx].1 {
            Scalar::Bool(b) => Some(*b),
            Scalar::Str(_) => None,
        }
    } else {
        None
    }
}

/// The person a document stands for: the document must be valid and must
/// carry each of the keys `lastName`, `firstName`, `phoneNumber` exactly
/// once, each with a string value. Keys beyond these three are ignored.
pub open spec fn person_of_doc(s: Seq<char>) -> Option<crate::model::PersonView> {
    match doc_pairs(s) {
        None => None,
        Some(ps) => match (
            unique_entry(ps, "lastName"@),
            unique_entry(ps, "firstName"@),
            unique_entry(ps, "phoneNumber"@),
        ) {
            (
                Some(ScalarView::Str(last_name)),
                Some(ScalarView::Str(first_name)),
                Some(ScalarView::Str(phone_number)),
            ) => Some(crate::model::PersonView { last_name, first_name, phone_number }),
            _ => None,
        },
    }
}

/// The acknowledgement a document stands for: the document must be valid
/// and must carry `success` (a boolean) and `message` (a string), each
/// exactly once. Keys beyond these two are ignored.
pub open spec fn success_of_doc(s: Seq<char>) -> Option<crate::model::SuccessResponseView> {
    match doc_pairs(s) {
        None => None,
        Some(ps) => match (unique_entry(ps, "success"@), unique_entry(ps, "message"@)) {
            (Some(ScalarView::Bool(success)), Some(ScalarView::Str(message))) => Some(
                crate::model::SuccessResponseView { success, message },
            ),
            _ => None,
        },
    }
}

/// Reads a submission body: the person it carries, or `None` when the body
/// is not a valid document carrying the three required string fields.
pub fn parse_person(body: &str) -> (r: Option<crate::model::Person>)
    ensures
        (r is Some) == (person_of_doc(body@) is Some),
        r matches Some(p) ==> Some(p@) == person_of_doc(body@),
{
    match scan_doc(body) {
        None => None,
        Some(ps) => {
            let last_name = get_unique_str(&ps, &String::from_str("lastName"));
            let first_name = get_unique_str(&ps, &String::from_str("firstName"));
            let phone_number = get_unique_str(&ps, &String::from_str("phoneNumber"));
            match (last_name, first_name, phone_number) {
                (Some(last_name), Some(first_name), Some(phone_number)) => Some(
                    crate::model::Person { last_name, first_name, phone_number },
                ),
                _ => None,
            }
        },
    }
}

/// Reads an acknowledgement body: the result it carries, or `None` when the
/// body is not a valid document carrying the two required fields.
pub fn parse_success(body: &str) -> (r: Option<crate::model::SuccessResponse>)
    ensures
        (r is Some) == (success_of_doc(body@) is Some),
        r matches Some(sr) ==> Some(sr@) == success_of_doc(body@),
{
    match scan_doc(body) {
        None => None,
        Some(ps) => {
            let success = get_unique_bool(&ps, &String::from_str("success"));
            let message = get_unique_str(&ps, &String::from_str("message"));
            match (success, message) {
                (Some(success), Some(message)) => Some(
                    crate::model::SuccessResponse { success, message },
                ),
                _ => None,
            }
        },
    }
}

/// The lowercase hex digit character for `d` (meaningful for `0 <= d <= 15`).
pub open spec fn hex_digit(d: int) -> char {
    if d < 10 {
        crate::text::dec_digit(d)
    } else if d == 10 {
        'a'
    } else if d == 11 {
        'b'
    } else if d == 12 {
        'c'
    } else if d == 13 {
        'd'
    } else if d == 14 {
        'e'
    } else {
        'f'
    }
}

/// How a character is written inside an encoded JSON string: itself, a
/// short escape, or a `\u00XX` escape for the remaining control characters.
pub open spec fn escape_char(c: char) -> Seq<char> {
    if c == '"' {
        seq!['\\', '"']
    } else if c == '\\' {
        seq!['\\', '\\']
    } else if c == '\n' {
        seq!['\\', 'n']
    } else if c == '\r' {
        seq!['\\', 'r']
    } else if c == '\t' {
        seq!['\\', 't']
    } else if c == '\u{8}' {
        seq!['\\', 'b']
    } else if c == '\u{c}' {
        seq!['\\', 'f']
    } else if json_ctrl(c) {
        seq!['\\', 'u', '0', '0', hex_digit(c as int / 16), hex_digit(c as int % 16)]
    } else {
        seq![c]
    }
}

/// The encoded body of a JSON string: each character written per
/// [`escape_char`].
pub open spec fn escape_str(s: Seq<char>) -> Seq<char>
    decreases s.len(),
{
    if s.len() == 0 {
        Seq::empty()
    } else {
        escape_str(s.drop_last()) + escape_char(s.last())
    }
}

/// An encoded JSON string: the escaped body between double quotes.
pub open spec fn quoted(s: Seq<char>) -> Seq<char> {
    seq!['"'] + escape_str(s) + seq!['"']
}

/// The JSON document the form submits for a person: the three fields, in
/// declaration order, with no insignificant whitespace.
pub open spec fn person_json(p: crate::model::PersonView) -> Seq<char> {
    seq!['{'] + quoted("lastName"@) + seq![':'] + quoted(p.last_name) + seq![','] + quoted(
        "firstName"@,
    ) + seq![':'] + quoted(p.first_name) + seq![','] + quoted("phoneNumber"@) + seq![':']
        + quoted(p.phone_number) + seq!['}']
}

/// The JSON document the service answers with: the flag, then the message,
/// with no insignificant whitespace.
pub open spec fn success_json(r: crate::model::SuccessResponseView) -> Seq<char> {
    seq!['{'] + quoted("success"@) + seq![':'] + (if r.success {
        "true"@
    } else {
        "false"@
    }) + seq![','] + quoted("message"@) + seq![':'] + quoted(r.message) + seq!['}']
}

fn hex_digit_exec(d: u32) -> (r: char)
    requires
        d <= 15,
    ensures
        r == hex_digit(d as int),
{
    match d {
        0 => '0',
        1 => '1',
        2 => '2',
        3 => '3',
        4 => '4',
        5 => '5',
        6 => '6',
        7 => '7',
        8 => '8',
        9 => '9',
        10 => 'a',
        11 => 'b',
        12 => 'c',
        13 => 'd',
        14 => 'e',
        _ => 'f',
    }
}

fn push_str(out: &mut Vec<char>, s: &str)
    ensures
        final(out)@ == old(out)@ + s@,
{
    let n: usize = s.unicode_len();
    let mut i: usize = 0;
    while i < n
        invariant
            0 <= i <= n,
            n == s@.len(),
            out@ == old(out)@ + s@.take(i as int),
        decreases n - i,
    {
        out.push(s.get_char(i));
        proof {
            assert(old(out)@ + s@.take(i as int) + seq![s@[i as int]] =~= old(out)@ + s@.take(
                i + 1,
            ));
        }
        i += 1;
    }
    proof {
        assert(s@.take(n as int) =~= s@);
    }
}

fn push_quoted(out: &mut Vec<char>, s: &str)
    ensures
        final(out)@ == old(out)@ + quoted(s@),
{
    out.push('"');
    let n: usize = s.unicode_len();
    let mut i: usize = 0;
    while i < n
        invariant
            0 <= i <= n,
            n == s@.len(),
            out@ == old(out)@ + seq!['"'] + escape_str(s@.take(i as int)),
        decreases n - i,
    {
        let c = s.get_char(i);
        let ghost before = out@;
        if c == '"' {
            out.push('\\');
            out.push('"');
        } else if c == '\\' {
            out.push('\\');
            out.push('\\');
        } else if c == '\n' {
            out.push('\\');
            out.push('n');
        } else if c == '\r' {
            out.push('\\');
            out.push('r');
        } else if c == '\t' {
            out.push('\\');
            out.push('t');
        } else if c == '\u{8}' {
            out.push('\\');
            out.push('b');
        } else if c == '\u{c}' {
            out.push('\\');
            out.push('f');
        } else if char_is_ctrl(c) {
            out.push('\\');
            out.push('u');
            out.push('0');
            out.push('0');
            out.push(hex_digit_exec((c as u32) / 16));
            out.push(hex_digit_exec((c as u32) % 16));
        } else {
            out.push(c);
        }
        proof {
            assert(out@ =~= before + escape_char(s@[i as int]));
            assert(s@.take(i + 1).drop_last() =~= s@.take(i as int));
            assert(out@ =~= old(out)@ + seq!['"'] + escape_str(s@.take(i + 1)));
        }
        i += 1;
    }
    out.push('"');
    proof {
        assert(s@.take(n as int) =~= s@);
        assert(out@ =~= old(out)@ + quoted(s@));
    }
}

/// Encodes a person as the form submits it.
pub fn encode_person(p: &crate::model::Person) -> (r: String)
    ensures
        r@ == person_json(p@),
{
    let mut out: Vec<char> = Vec::new();
    out.push('{');
    push_quoted(&mut out, "lastName");
    out.push(':');
    push_quoted(&mut out, p.last_name.as_str());
    out.push(',');
    push_quoted(&mut out, "firstName");
    out.push(':');
    push_quoted(&mut out, p.first_name.as_str());
    out.push(',');
    push_quoted(&mut out, "phoneNumber");
    out.push(':');
    push_quoted(&mut out, p.phone_number.as_str());
    out.push('}');
    proof {
        assert(out@ =~= person_json(p@));
    }
    crate::text::chars_to_string(&out)
}

/// Encodes an acknowledgement as the service answers it.
pub fn encode_success(sr: &crate::model::SuccessResponse) -> (r: String)
    ensures
        r@ == success_json(sr@),
{
    let mut out: Vec<char> = Vec::new();
    out.push('{');
    push_quoted(&mut out, "success");
    out.push(':');
    if sr.success {
        push_str(&mut out, "true");
    } else {
        push_str(&mut out, "false");
    }
    out.push(',');
    push_quoted(&mut out, "message");
    out.push(':');
    push_quoted(&mut out, sr.message.as_str());
    out.push('}');
    proof {
        assert(out@ =~= success_json(sr@));
    }
    crate::text::chars_to_string(&out)
}

} // verus!
