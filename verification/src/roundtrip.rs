//! The two halves of the codec agree: a document the encoder writes is read
//! back by the scanner as the record it was written from.
//!
//! The proofs walk the scanner over the encoded document segment by
//! segment: over one quoted string, over a `true` / `false` literal, and
//! over the punctuation between them.

use vstd::prelude::*;
use crate::json::{
    doc_pairs, entry_val, escape_char, escape_str, init_state, key_count, person_json,
    person_of_doc, quoted, run_from, step, success_json, success_of_doc, unique_entry, Phase,
    ScalarView, ScanState,
};
use crate::model::{PersonView, SuccessResponseView};

verus! {

/// A character the encoder writes in a form the scanner reads back: either
/// no escape is needed, or one of the named short escapes covers it. Only
/// the control characters that fall back to a `\u00XX` escape are excluded,
/// since the scanner does not take `\u` escapes.
pub open spec fn scan_safe(c: char) -> bool {
    !crate::json::json_ctrl(c) || c == '\n' || c == '\r' || c == '\t' || c == '\u{8}' || c
        == '\u{c}'
}

/// Every character of `s` is [`scan_safe`].
pub open spec fn scan_safe_str(s: Seq<char>) -> bool {
    forall|i: int| 0 <= i < s.len() ==> scan_safe(s[i])
}

proof fn lemma_run_shift(st: ScanState, s1: Seq<char>, s2: Seq<char>, j: int)
    requires
        0 <= j,
    ensures
        run_from(st, s1 + s2, s1.len() + j) == run_from(st, s2, j),
    decreases s2.len() - j,
{
    if j >= s2.len() {
        assert((s1 + s2).len() == s1.len() + s2.len());
    } else {
        assert((s1 + s2)[s1.len() + j] == s2[j]);
        match step(st, s2[j]) {
            None => {},
            Some(m) => {
                lemma_run_shift(m, s1, s2, j + 1);
            },
        }
    }
}

proof fn lemma_run_append(st: ScanState, s1: Seq<char>, s2: Seq<char>, i: int)
    requires
        0 <= i <= s1.len(),
    ensures
        run_from(st, s1 + s2, i) == (match run_from(st, s1, i) {
            None => None,
            Some(m) => run_from(m, s2, 0),
        }),
    decreases s1.len() - i,
{
    if i == s1.len() {
        lemma_run_shift(st, s1, s2, 0);
    } else {
        assert((s1 + s2)[i] == s1[i]);
        match step(st, s1[i]) {
            None => {},
            Some(m) => {
                lemma_run_append(m, s1, s2, i + 1);
            },
        }
    }
}

proof fn lemma_run_one(st: ScanState, c: char)
    ensures
        run_from(st, seq![c], 0) == step(st, c),
{
    match step(st, c) {
        None => {},
        Some(m) => {
            assert(run_from(m, seq![c], 1) == Some(m));
        },
    }
}

proof fn lemma_scan_escaped_char_value(st: ScanState, c: char)
    requires
        st.phase == Phase::InStr,
        scan_safe(c),
    ensures
        run_from(st, escape_char(c), 0) == Some(ScanState { acc: st.acc.push(c), ..st }),
{
    let e = escape_char(c);
    if e.len() == 2 {
        let m = ScanState { phase: Phase::StrEsc, ..st };
        assert(step(st, e[0]) == Some(m));
        assert(run_from(st, e, 0) == run_from(m, e, 1));
        let next = ScanState { phase: Phase::InStr, acc: st.acc.push(c), ..st };
        assert(step(m, e[1]) == Some(next));
        assert(run_from(m, e, 1) == run_from(next, e, 2));
        assert(run_from(next, e, 2) == Some(next));
        assert(next =~= (ScanState { acc: st.acc.push(c), ..st }));
    } else {
        assert(e =~= seq![c]);
        lemma_run_one(st, c);
        assert(step(st, c) == Some(ScanState { acc: st.acc.push(c), ..st }));
    }
}

proof fn lemma_scan_escaped_char_key(st: ScanState, c: char)
    requires
        st.phase == Phase::InKey,
        scan_safe(c),
    ensures
        run_from(st, escape_char(c), 0) == Some(ScanState { key: st.key.push(c), ..st }),
{
    let e = escape_char(c);
    if e.len() == 2 {
        let m = ScanState { phase: Phase::KeyEsc, ..st };
        assert(step(st, e[0]) == Some(m));
        assert(run_from(st, e, 0) == run_from(m, e, 1));
        let next = ScanState { phase: Phase::InKey, key: st.key.push(c), ..st };
        assert(step(m, e[1]) == Some(next));
        assert(run_from(m, e, 1) == run_from(next, e, 2));
        assert(run_from(next, e, 2) == Some(next));
        assert(next =~= (ScanState { key: st.key.push(c), ..st }));
    } else {
        assert(e =~= seq![c]);
        lemma_run_one(st, c);
        assert(step(st, c) == Some(ScanState { key: st.key.push(c), ..st }));
    }
}

proof fn lemma_scan_escaped_str_value(st: ScanState, s: Seq<char>)
    requires
        st.phase == Phase::InStr,
        scan_safe_str(s),
    ensures
        run_from(st, escape_str(s), 0) == Some(ScanState { acc: st.acc + s, ..st }),
    decreases s.len(),
{
    if s.len() == 0 {
        assert(escape_str(s) =~= Seq::<char>::empty());
        assert(st.acc + s =~= st.acc);
        assert(ScanState { acc: st.acc + s, ..st } =~= st);
    } else {
        let s0 = s.drop_last();
        let c = s.last();
        assert(scan_safe_str(s0));
        lemma_scan_escaped_str_value(st, s0);
        let m = ScanState { acc: st.acc + s0, ..st };
        lemma_scan_escaped_char_value(m, c);
        lemma_run_append(st, escape_str(s0), escape_char(c), 0);
        assert((st.acc + s0).push(c) =~= st.acc + s);
    }
}

proof fn lemma_scan_escaped_str_key(st: ScanState, s: Seq<char>)
    requires
        st.phase == Phase::InKey,
        scan_safe_str(s),
    ensures
        run_from(st, escape_str(s), 0) == Some(ScanState { key: st.key + s, ..st }),
    decreases s.len(),
{
    if s.len() == 0 {
        assert(escape_str(s) =~= Seq::<char>::empty());
        assert(st.key + s =~= st.key);
        assert(ScanState { key: st.key + s, ..st } =~= st);
    } else {
        let s0 = s.drop_last();
        let c = s.last();
        assert(scan_safe_str(s0));
        lemma_scan_escaped_str_key(st, s0);
        let m = ScanState { key: st.key + s0, ..st };
        lemma_scan_escaped_char_key(m, c);
        lemma_run_append(st, escape_str(s0), escape_char(c), 0);
        assert((st.key + s0).push(c) =~= st.key + s);
    }
}

proof fn lemma_scan_quoted_key(st: ScanState, k: Seq<char>)
    requires
        st.phase == Phase::BeforeFirstItem || st.phase == Phase::BeforeKey,
        scan_safe_str(k),
    ensures
        run_from(st, quoted(k), 0) == Some(ScanState { phase: Phase::AfterKey, key: k, ..st }),
{
    let open = ScanState { phase: Phase::InKey, key: Seq::empty(), ..st };
    assert(step(st, '"') == Some(open));
    lemma_run_append(st, seq!['"'], escape_str(k) + seq!['"'], 0);
    lemma_run_one(st, '"');
    assert(quoted(k) =~= seq!['"'] + (escape_str(k) + seq!['"']));

    lemma_run_append(open, escape_str(k), seq!['"'], 0);
    lemma_scan_escaped_str_key(open, k);
    let filled = ScanState { phase: Phase::InKey, key: Seq::empty() + k, ..st };
    assert(Seq::empty() + k =~= k);
    lemma_run_one(filled, '"');
    assert(step(filled, '"') == Some(ScanState { phase: Phase::AfterKey, key: k, ..st }));
}

proof fn lemma_scan_quoted_value(st: ScanState, s: Seq<char>)
    requires
        st.phase == Phase::BeforeVal,
        scan_safe_str(s),
    ensures
        run_from(st, quoted(s), 0) == Some(
            ScanState {
                phase: Phase::AfterItem,
                acc: s,
                pairs: st.pairs.push((st.key, ScalarView::Str(s))),
                ..st
            },
        ),
{
    let open = ScanState { phase: Phase::InStr, acc: Seq::empty(), ..st };
    assert(step(st, '"') == Some(open));
    lemma_run_append(st, seq!['"'], escape_str(s) + seq!['"'], 0);
    lemma_run_one(st, '"');
    assert(quoted(s) =~= seq!['"'] + (escape_str(s) + seq!['"']));

    lemma_run_append(open, escape_str(s), seq!['"'], 0);
    lemma_scan_escaped_str_value(open, s);
    let filled = ScanState { phase: Phase::InStr, acc: Seq::empty() + s, ..st };
    assert(Seq::empty() + s =~= s);
    lemma_run_one(filled, '"');
    assert(step(filled, '"') == Some(
        ScanState {
            phase: Phase::AfterItem,
            acc: s,
            pairs: st.pairs.push((st.key, ScalarView::Str(s))),
            ..st
        },
    ));
}

proof fn lemma_scan_literal(st: ScanState, v: bool)
    requires
        st.phase == Phase::BeforeVal,
    ensures
        run_from(st, if v { "true"@ } else { "false"@ }, 0) == Some(
            ScanState {
                phase: Phase::AfterItem,
                lit_rest: Seq::empty(),
                lit_val: v,
                pairs: st.pairs.push((st.key, ScalarView::Bool(v))),
                ..st
            },
        ),
{
    let fin = ScanState {
        phase: Phase::AfterItem,
        lit_rest: Seq::empty(),
        lit_val: v,
        pairs: st.pairs.push((st.key, ScalarView::Bool(v))),
        ..st
    };
    if v {
        reveal_strlit("true");
        let s = "true"@;
        assert(s.len() == 4 && s[0] == 't' && s[1] == 'r' && s[2] == 'u' && s[3] == 'e');
        let st1 = ScanState {
            phase: Phase::InLit,
            lit_rest: seq!['r', 'u', 'e'],
            lit_val: true,
            ..st
        };
        assert(step(st, s[0]) == Some(st1));
        let st2 = ScanState { lit_rest: seq!['u', 'e'], ..st1 };
        assert((seq!['r', 'u', 'e']).skip(1) =~= (seq!['u', 'e']));
        assert(step(st1, s[1]) == Some(st2));
        let st3 = ScanState { lit_rest: seq!['e'], ..st2 };
        assert((seq!['u', 'e']).skip(1) =~= (seq!['e']));
        assert(step(st2, s[2]) == Some(st3));
        assert(step(st3, s[3]) == Some(fin));
        assert(run_from(st, s, 0) == run_from(st1, s, 1));
        assert(run_from(st1, s, 1) == run_from(st2, s, 2));
        assert(run_from(st2, s, 2) == run_from(st3, s, 3));
        assert(run_from(st3, s, 3) == run_from(fin, s, 4));
        assert(run_from(fin, s, 4) == Some(fin));
    } else {
        reveal_strlit("false");
        let s = "false"@;
        assert(s.len() == 5 && s[0] == 'f' && s[1] == 'a' && s[2] == 'l' && s[3] == 's' && s[4]
            == 'e');
        let st1 = ScanState {
            phase: Phase::InLit,
            lit_rest: seq!['a', 'l', 's', 'e'],
            lit_val: false,
            ..st
        };
        assert(step(st, s[0]) == Some(st1));
        let st2 = ScanState { lit_rest: seq!['l', 's', 'e'], ..st1 };
        assert((seq!['a', 'l', 's', 'e']).skip(1) =~= (seq!['l', 's', 'e']));
        assert(step(st1, s[1]) == Some(st2));
        let st3 = ScanState { lit_rest: seq!['s', 'e'], ..st2 };
        assert((seq!['l', 's', 'e']).skip(1) =~= (seq!['s', 'e']));
        assert(step(st2, s[2]) == Some(st3));
        let st4 = ScanState { lit_rest: seq!['e'], ..st3 };
        assert((seq!['s', 'e']).skip(1) =~= (seq!['e']));
        assert(step(st3, s[3]) == Some(st4));
        assert(step(st4, s[4]) == Some(fin));
        assert(run_from(st, s, 0) == run_from(st1, s, 1));
        assert(run_from(st1, s, 1) == run_from(st2, s, 2));
        assert(run_from(st2, s, 2) == run_from(st3, s, 3));
        assert(run_from(st3, s, 3) == run_from(st4, s, 4));
        assert(run_from(st4, s, 4) == run_from(fin, s, 5));
        assert(run_from(fin, s, 5) == Some(fin));
    }
}

/// The encoded submission reads back as the person it was written from:
/// for every person whose fields hold no control character outside the
/// named short escapes, decoding the encoding yields exactly that person.
pub proof fn lemma_person_round_trip(p: PersonView)
    requires
        scan_safe_str(p.last_name),
        scan_safe_str(p.first_name),
        scan_safe_str(p.phone_number),
    ensures
        person_of_doc(person_json(p)) == Some(p),
{
    reveal_strlit("lastName");
    reveal_strlit("firstName");
    reveal_strlit("phoneNumber");
    let kl = "lastName"@;
    let kf = "firstName"@;
    let kp = "phoneNumber"@;
    assert(kl.len() == 8 && kf.len() == 9 && kp.len() == 11);
    assert(scan_safe_str(kl));
    assert(scan_safe_str(kf));
    assert(scan_safe_str(kp));

    let st0 = init_state();
    let t1 = seq!['{'];
    let st1 = ScanState { phase: Phase::BeforeFirstItem, ..st0 };
    lemma_run_one(st0, '{');
    assert(run_from(st0, t1, 0) == Some(st1));

    let t2 = t1 + quoted(kl);
    lemma_run_append(st0, t1, quoted(kl), 0);
    lemma_scan_quoted_key(st1, kl);
    let st2 = ScanState { phase: Phase::AfterKey, key: kl, ..st1 };
    assert(run_from(st0, t2, 0) == Some(st2));

    let t3 = t2 + seq![':'];
    lemma_run_append(st0, t2, seq![':'], 0);
    lemma_run_one(st2, ':');
    let st3 = ScanState { phase: Phase::BeforeVal, ..st2 };
    assert(run_from(st0, t3, 0) == Some(st3));

    let t4 = t3 + quoted(p.last_name);
    lemma_run_append(st0, t3, quoted(p.last_name), 0);
    lemma_scan_quoted_value(st3, p.last_name);
    let pair_l = (kl, ScalarView::Str(p.last_name));
    let st4 = ScanState {
        phase: Phase::AfterItem,
        acc: p.last_name,
        pairs: st3.pairs.push(pair_l),
        ..st3
    };
    assert(run_from(st0, t4, 0) == Some(st4));

    let t5 = t4 + seq![','];
    lemma_run_append(st0, t4, seq![','], 0);
    lemma_run_one(st4, ',');
    let st5 = ScanState { phase: Phase::BeforeKey, ..st4 };
    assert(run_from(st0, t5, 0) == Some(st5));

    let t6 = t5 + quoted(kf);
    lemma_run_append(st0, t5, quoted(kf), 0);
    lemma_scan_quoted_key(st5, kf);
    let st6 = ScanState { phase: Phase::AfterKey, key: kf, ..st5 };
    assert(run_from(st0, t6, 0) == Some(st6));

    let t7 = t6 + seq![':'];
    lemma_run_append(st0, t6, seq![':'], 0);
    lemma_run_one(st6, ':');
    let st7 = ScanState { phase: Phase::BeforeVal, ..st6 };
    assert(run_from(st0, t7, 0) == Some(st7));

    let t8 = t7 + quoted(p.first_name);
    lemma_run_append(st0, t7, quoted(p.first_name), 0);
    lemma_scan_quoted_value(st7, p.first_name);
    let pair_f = (kf, ScalarView::Str(p.first_name));
    let st8 = ScanState {
        phase: Phase::AfterItem,
        acc: p.first_name,
        pairs: st7.pairs.push(pair_f),
        ..st7
    };
    assert(run_from(st0, t8, 0) == Some(st8));

    let t9 = t8 + seq![','];
    lemma_run_append(st0, t8, seq![','], 0);
    lemma_run_one(st8, ',');
    let st9 = ScanState { phase: Phase::BeforeKey, ..st8 };
    assert(run_from(st0, t9, 0) == Some(st9));

    let t10 = t9 + quoted(kp);
    lemma_run_append(st0, t9, quoted(kp), 0);
    lemma_scan_quoted_key(st9, kp);
    let st10 = ScanState { phase: Phase::AfterKey, key: kp, ..st9 };
    assert(run_from(st0, t10, 0) == Some(st10));

    let t11 = t10 + seq![':'];
    lemma_run_append(st0, t10, seq![':'], 0);
    lemma_run_one(st10, ':');
    let st11 = ScanState { phase: Phase::BeforeVal, ..st10 };
    assert(run_from(st0, t11, 0) == Some(st11));

    let t12 = t11 + quoted(p.phone_number);
    lemma_run_append(st0, t11, quoted(p.phone_number), 0);
    lemma_scan_quoted_value(st11, p.phone_number);
    let pair_p = (kp, ScalarView::Str(p.phone_number));
    let st12 = ScanState {
        phase: Phase::AfterItem,
        acc: p.phone_number,
        pairs: st11.pairs.push(pair_p),
        ..st11
    };
    assert(run_from(st0, t12, 0) == Some(st12));

    let t13 = t12 + seq!['}'];
    lemma_run_append(st0, t12, seq!['}'], 0);
    lemma_run_one(st12, '}');
    let st13 = ScanState { phase: Phase::Done, ..st12 };
    assert(run_from(st0, t13, 0) == Some(st13));

    assert(t13 == person_json(p));
    assert(doc_pairs(person_json(p)) == Some(st13.pairs));

    let ps0 = Seq::<(Seq<char>, ScalarView)>::empty();
    let ps1 = ps0.push(pair_l);
    let ps2 = ps1.push(pair_f);
    let ps = ps2.push(pair_p);
    assert(st13.pairs == ps);
    assert(ps.last() == pair_p && ps.drop_last() =~= ps2);
    assert(ps2.last() == pair_f && ps2.drop_last() =~= ps1);
    assert(ps1.last() == pair_l && ps1.drop_last() =~= ps0);
    assert(kl != kf && kl != kp && kf != kp);

    assert(key_count(ps0, kl) == 0 && key_count(ps0, kf) == 0 && key_count(ps0, kp) == 0);
    assert(key_count(ps1, kl) == 1 && key_count(ps1, kf) == 0 && key_count(ps1, kp) == 0);
    assert(key_count(ps2, kl) == 1 && key_count(ps2, kf) == 1 && key_count(ps2, kp) == 0);
    assert(key_count(ps, kl) == 1 && key_count(ps, kf) == 1 && key_count(ps, kp) == 1);

    assert(entry_val(ps, kp) == pair_p.1);
    assert(entry_val(ps, kf) == entry_val(ps2, kf));
    assert(entry_val(ps2, kf) == pair_f.1);
    assert(entry_val(ps, kl) == entry_val(ps2, kl));
    assert(entry_val(ps2, kl) == entry_val(ps1, kl));
    assert(entry_val(ps1, kl) == pair_l.1);

    assert(unique_entry(ps, kl) == Some(ScalarView::Str(p.last_name)));
    assert(unique_entry(ps, kf) == Some(ScalarView::Str(p.first_name)));
    assert(unique_entry(ps, kp) == Some(ScalarView::Str(p.phone_number)));
}

/// The encoded acknowledgement reads back as the result it was written
/// from, under the same condition on the message's characters.
pub proof fn lemma_success_round_trip(r: SuccessResponseView)
    requires
        scan_safe_str(r.message),
    ensures
        success_of_doc(success_json(r)) == Some(r),
{
    reveal_strlit("success");
    reveal_strlit("message");
    let ks = "success"@;
    let km = "message"@;
    assert(ks.len() == 7 && km.len() == 7);
    assert(ks[0] == 's' && km[0] == 'm');
    assert(ks != km);
    assert(scan_safe_str(ks));
    assert(scan_safe_str(km));

    let st0 = init_state();
    let t1 = seq!['{'];
    let st1 = ScanState { phase: Phase::BeforeFirstItem, ..st0 };
    lemma_run_one(st0, '{');
    assert(run_from(st0, t1, 0) == Some(st1));

    let t2 = t1 + quoted(ks);
    lemma_run_append(st0, t1, quoted(ks), 0);
    lemma_scan_quoted_key(st1, ks);
    let st2 = ScanState { phase: Phase::AfterKey, key: ks, ..st1 };
    assert(run_from(st0, t2, 0) == Some(st2));

    let t3 = t2 + seq![':'];
    lemma_run_append(st0, t2, seq![':'], 0);
    lemma_run_one(st2, ':');
    let st3 = ScanState { phase: Phase::BeforeVal, ..st2 };
    assert(run_from(st0, t3, 0) == Some(st3));

    let lit = if r.success {
        "true"@
    } else {
        "false"@
    };
    let t4 = t3 + lit;
    lemma_run_append(st0, t3, lit, 0);
    lemma_scan_literal(st3, r.success);
    let pair_s = (ks, ScalarView::Bool(r.success));
    let st4 = ScanState {
        phase: Phase::AfterItem,
        lit_rest: Seq::empty(),
        lit_val: r.success,
        pairs: st3.pairs.push(pair_s),
        ..st3
    };
    assert(run_from(st0, t4, 0) == Some(st4));

    let t5 = t4 + seq![','];
    lemma_run_append(st0, t4, seq![','], 0);
    lemma_run_one(st4, ',');
    let st5 = ScanState { phase: Phase::BeforeKey, ..st4 };
    assert(run_from(st0, t5, 0) == Some(st5));

    let t6 = t5 + quoted(km);
    lemma_run_append(st0, t5, quoted(km), 0);
    lemma_scan_quoted_key(st5, km);
    let st6 = ScanState { phase: Phase::AfterKey, key: km, ..st5 };
    assert(run_from(st0, t6, 0) == Some(st6));

    let t7 = t6 + seq![':'];
    lemma_run_append(st0, t6, seq![':'], 0);
    lemma_run_one(st6, ':');
    let st7 = ScanState { phase: Phase::BeforeVal, ..st6 };
    assert(run_from(st0, t7, 0) == Some(st7));

    let t8 = t7 + quoted(r.message);
    lemma_run_append(st0, t7, quoted(r.message), 0);
    lemma_scan_quoted_value(st7, r.message);
    let pair_m = (km, ScalarView::Str(r.message));
    let st8 = ScanState {
        phase: Phase::AfterItem,
        acc: r.message,
        pairs: st7.pairs.push(pair_m),
        ..st7
    };
    assert(run_from(st0, t8, 0) == Some(st8));

    let t9 = t8 + seq!['}'];
    lemma_run_append(st0, t8, seq!['}'], 0);
    lemma_run_one(st8, '}');
    let st9 = ScanState { phase: Phase::Done, ..st8 };
    assert(run_from(st0, t9, 0) == Some(st9));

    assert(t9 == success_json(r));
    assert(doc_pairs(success_json(r)) == Some(st9.pairs));

    let ps0 = Seq::<(Seq<char>, ScalarView)>::empty();
    let ps1 = ps0.push(pair_s);
    let ps = ps1.push(pair_m);
    assert(st9.pairs == ps);
    assert(ps.last() == pair_m && ps.drop_last() =~= ps1);
    assert(ps1.last() == pair_s && ps1.drop_last() =~= ps0);

    assert(key_count(ps0, ks) == 0 && key_count(ps0, km) == 0);
    assert(key_count(ps1, ks) == 1 && key_count(ps1, km) == 0);
    assert(key_count(ps, ks) == 1 && key_count(ps, km) == 1);

    assert(entry_val(ps, km) == pair_m.1);
    assert(entry_val(ps, ks) == entry_val(ps1, ks));
    assert(entry_val(ps1, ks) == pair_s.1);

    assert(unique_entry(ps, ks) == Some(ScalarView::Bool(r.success)));
    assert(unique_entry(ps, km) == Some(ScalarView::Str(r.message)));
}

} // verus!
