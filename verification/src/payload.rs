//! The WiFi QR payload grammar.
//!
//! A payload is `["WIFI:"] field (";" field)* [";"]` where each field is
//! `key ":" value`. The model below says what value a key is bound to: the
//! text (with the scheme prefix stripped) is split on `;` into tokens, each
//! token is split at its first `:` into a pair, tokens without a `:` are
//! dropped, and of several pairs with the same key the last one wins.

use vstd::prelude::*;

verus! {

/// Index of the first occurrence of `c` in `s`, or -1 when `c` does not occur.
pub open spec fn find_char(s: Seq<char>, c: char) -> int
    decreases s.len(),
{
    if s.len() == 0 {
        -1
    } else if s[0] == c {
        0
    } else if find_char(s.drop_first(), c) < 0 {
        -1
    } else {
        find_char(s.drop_first(), c) + 1
    }
}

pub proof fn lemma_find_char(s: Seq<char>, c: char)
    ensures
        -1 <= find_char(s, c) < s.len(),
        find_char(s, c) >= 0 ==> s[find_char(s, c)] == c,
        forall|j: int| 0 <= j < find_char(s, c) ==> s[j] != c,
        find_char(s, c) == -1 ==> forall|j: int| 0 <= j < s.len() ==> s[j] != c,
    decreases s.len(),
{
    if s.len() == 0 {
    } else if s[0] == c {
    } else {
        lemma_find_char(s.drop_first(), c);
        assert forall|j: int| 0 <= j < find_char(s, c) implies s[j] != c by {
            if j > 0 {
                assert(s.drop_first()[j - 1] == s[j]);
            }
        }
        if find_char(s, c) == -1 {
            assert forall|j: int| 0 <= j < s.len() implies s[j] != c by {
                if j > 0 {
                    assert(s.drop_first()[j - 1] == s[j]);
                }
            }
        }
    }
}

/// The first occurrence of `c` in `s` is at `i` exactly when `s[i] == c` and
/// no earlier position holds `c`.
pub proof fn lemma_find_char_at(s: Seq<char>, c: char, i: int)
    requires
        0 <= i < s.len(),
        s[i] == c,
        forall|j: int| 0 <= j < i ==> s[j] != c,
    ensures
        find_char(s, c) == i,
    decreases s.len(),
{
    if i == 0 {
    } else {
        assert(s[0] != c);
        assert(forall|j: int| 0 <= j < s.drop_first().len() ==> s.drop_first()[j] == s[j + 1]);
        lemma_find_char_at(s.drop_first(), c, i - 1);
    }
}

pub proof fn lemma_find_char_missing(s: Seq<char>, c: char)
    requires
        forall|j: int| 0 <= j < s.len() ==> s[j] != c,
    ensures
        find_char(s, c) == -1,
    decreases s.len(),
{
    if s.len() == 0 {
    } else {
        assert(forall|j: int| 0 <= j < s.drop_first().len() ==> s.drop_first()[j] == s[j + 1]);
        lemma_find_char_missing(s.drop_first(), c);
    }
}

/// The tokens of `s` split on the separator `sep`. As with `str::split`,
/// the empty text yields one empty token, and a trailing separator yields a
/// trailing empty token.
pub open spec fn split_at_sep(s: Seq<char>, sep: char) -> Seq<Seq<char>>
    decreases s.len(),
{
    let i = find_char(s, sep);
    if i < 0 || i >= s.len() {
        seq![s]
    } else {
        seq![s.subrange(0, i)] + split_at_sep(s.subrange(i + 1, s.len() as int), sep)
    }
}

/// The (key, value) pair of one token, split at the token's first `:`;
/// a token without a `:` yields no pair.
pub open spec fn token_pair(t: Seq<char>) -> Option<(Seq<char>, Seq<char>)> {
    let i = find_char(t, ':');
    if i < 0 {
        None
    } else {
        Some((t.subrange(0, i), t.subrange(i + 1, t.len() as int)))
    }
}

/// The pairs of a token list, tokens without a `:` dropped.
pub open spec fn pairs_of(tokens: Seq<Seq<char>>) -> Seq<(Seq<char>, Seq<char>)>
    decreases tokens.len(),
{
    if tokens.len() == 0 {
        Seq::empty()
    } else {
        match token_pair(tokens[0]) {
            Some(p) => seq![p] + pairs_of(tokens.drop_first()),
            None => pairs_of(tokens.drop_first()),
        }
    }
}

/// Last-wins lookup of `key` among `pairs`.
pub open spec fn lookup_key(pairs: Seq<(Seq<char>, Seq<char>)>, key: Seq<char>) -> Option<
    Seq<char>,
>
    decreases pairs.len(),
{
    if pairs.len() == 0 {
        None
    } else if pairs.last().0 == key {
        Some(pairs.last().1)
    } else {
        lookup_key(pairs.drop_last(), key)
    }
}

/// The payload with the `WIFI:` scheme prefix stripped, if it carries one.
pub open spec fn payload_body(s: Seq<char>) -> Seq<char> {
    if s.len() >= 5 && s.subrange(0, 5) == "WIFI:"@ {
        s.subrange(5, s.len() as int)
    } else {
        s
    }
}

/// The value bound to `key` by a payload body (no scheme prefix).
pub open spec fn body_value(body: Seq<char>, key: Seq<char>) -> Option<Seq<char>> {
    lookup_key(pairs_of(split_at_sep(body, ';')), key)
}

/// The value bound to `key` by the full payload text.
pub open spec fn field_value(s: Seq<char>, key: Seq<char>) -> Option<Seq<char>> {
    body_value(payload_body(s), key)
}

pub proof fn lemma_pairs_of_append(a: Seq<Seq<char>>, b: Seq<Seq<char>>)
    ensures
        pairs_of(a + b) == pairs_of(a) + pairs_of(b),
    decreases a.len(),
{
    if a.len() == 0 {
        assert(a + b =~= b);
        assert(pairs_of(a) + pairs_of(b) =~= pairs_of(b));
    } else {
        assert((a + b).drop_first() =~= a.drop_first() + b);
        assert((a + b)[0] == a[0]);
        lemma_pairs_of_append(a.drop_first(), b);
        match token_pair(a[0]) {
            Some(p) => {
                assert(seq![p] + (pairs_of(a.drop_first()) + pairs_of(b)) =~= (seq![p]
                    + pairs_of(a.drop_first())) + pairs_of(b));
            },
            None => {},
        }
    }
}

pub proof fn lemma_lookup_key_append(
    p1: Seq<(Seq<char>, Seq<char>)>,
    p2: Seq<(Seq<char>, Seq<char>)>,
    key: Seq<char>,
)
    ensures
        lookup_key(p1 + p2, key) == if lookup_key(p2, key) is Some {
            lookup_key(p2, key)
        } else {
            lookup_key(p1, key)
        },
    decreases p2.len(),
{
    if p2.len() == 0 {
        assert(p1 + p2 =~= p1);
    } else {
        assert((p1 + p2).last() == p2.last());
        assert((p1 + p2).drop_last() =~= p1 + p2.drop_last());
        lemma_lookup_key_append(p1, p2.drop_last(), key);
    }
}

/// Appending a separator appends one empty token.
pub proof fn lemma_split_append_sep(s: Seq<char>, sep: char)
    ensures
        split_at_sep(s + seq![sep], sep) == split_at_sep(s, sep) + seq![Seq::<char>::empty()],
    decreases s.len(),
{
    let t = s + seq![sep];
    let i = find_char(s, sep);
    lemma_find_char(s, sep);
    if i < 0 {
        lemma_find_char_at(t, sep, s.len() as int);
        assert(t.subrange(0, s.len() as int) =~= s);
        assert(t.subrange(s.len() as int + 1, t.len() as int) =~= Seq::<char>::empty());
        lemma_find_char_missing(Seq::<char>::empty(), sep);
        assert(split_at_sep(t.subrange(s.len() as int + 1, t.len() as int), sep) =~= seq![
            Seq::<char>::empty(),
        ]);
        assert(split_at_sep(t, sep) =~= seq![s] + seq![Seq::<char>::empty()]);
    } else {
        lemma_find_char_at(t, sep, i);
        assert(t.subrange(0, i) =~= s.subrange(0, i));
        let s_rest = s.subrange(i + 1, s.len() as int);
        assert(t.subrange(i + 1, t.len() as int) =~= s_rest + seq![sep]);
        lemma_split_append_sep(s_rest, sep);
        assert(seq![s.subrange(0, i)] + (split_at_sep(s_rest, sep) + seq![
            Seq::<char>::empty(),
        ]) =~= (seq![s.subrange(0, i)] + split_at_sep(s_rest, sep)) + seq![
            Seq::<char>::empty(),
        ]);
    }
}

/// A payload body keeps its field bindings under a trailing separator.
pub proof fn lemma_body_value_trailing_sep(body: Seq<char>, key: Seq<char>)
    ensures
        body_value(body + seq![';'], key) == body_value(body, key),
{
    lemma_split_append_sep(body, ';');
    let ts = split_at_sep(body, ';');
    let empty_tok = seq![Seq::<char>::empty()];
    lemma_pairs_of_append(ts, empty_tok);
    lemma_find_char_missing(Seq::<char>::empty(), ':');
    assert(empty_tok.drop_first() =~= Seq::<Seq<char>>::empty());
    assert(pairs_of(empty_tok.drop_first()) =~= Seq::<(Seq<char>, Seq<char>)>::empty());
    assert(pairs_of(empty_tok) =~= Seq::<(Seq<char>, Seq<char>)>::empty());
    assert(pairs_of(ts + empty_tok) =~= pairs_of(ts));
}

/// The scheme prefix does not change the field bindings of the body.
pub proof fn lemma_field_value_prefixed(body: Seq<char>, key: Seq<char>)
    ensures
        field_value("WIFI:"@ + body, key) == body_value(body, key),
{
    reveal_strlit("WIFI:");
    let t = "WIFI:"@ + body;
    assert(t.subrange(0, 5) =~= "WIFI:"@);
    assert(t.subrange(5, t.len() as int) =~= body);
}

/// Splitting at a separator that ends a separator-free stretch `a` peels
/// `a` off as the first token.
pub proof fn lemma_split_sep_join(a: Seq<char>, b: Seq<char>, sep: char)
    requires
        forall|j: int| 0 <= j < a.len() ==> a[j] != sep,
    ensures
        split_at_sep(a + seq![sep] + b, sep) == seq![a] + split_at_sep(b, sep),
{
    let t = a + seq![sep] + b;
    assert(t[a.len() as int] == sep);
    lemma_find_char_at(t, sep, a.len() as int);
    assert(t.subrange(0, a.len() as int) =~= a);
    assert(t.subrange(a.len() as int + 1, t.len() as int) =~= b);
    assert(split_at_sep(t, sep) =~= seq![a] + split_at_sep(b, sep));
}

/// A body made of exactly two fields, `k1 ":" v1 ";" k2 ":" v2`, binds each
/// key to its own value.
pub proof fn lemma_two_token_body(k1: char, v1: Seq<char>, k2: char, v2: Seq<char>)
    requires
        k1 != k2,
        k1 != ':',
        k2 != ':',
        k1 != ';',
        k2 != ';',
        forall|j: int| 0 <= j < v1.len() ==> v1[j] != ';',
        forall|j: int| 0 <= j < v2.len() ==> v2[j] != ';',
    ensures
        body_value(seq![k1, ':'] + v1 + seq![';'] + seq![k2, ':'] + v2, seq![k1]) == Some(v1),
        body_value(seq![k1, ':'] + v1 + seq![';'] + seq![k2, ':'] + v2, seq![k2]) == Some(v2),
{
    let tok1 = seq![k1, ':'] + v1;
    let tok2 = seq![k2, ':'] + v2;
    let body = seq![k1, ':'] + v1 + seq![';'] + seq![k2, ':'] + v2;
    assert(body =~= tok1 + seq![';'] + tok2);
    assert forall|j: int| 0 <= j < tok1.len() implies tok1[j] != ';' by {
        if j >= 2 {
            assert(tok1[j] == v1[j - 2]);
        }
    }
    lemma_split_sep_join(tok1, tok2, ';');
    assert forall|j: int| 0 <= j < tok2.len() implies tok2[j] != ';' by {
        if j >= 2 {
            assert(tok2[j] == v2[j - 2]);
        }
    }
    lemma_find_char_missing(tok2, ';');
    assert(split_at_sep(tok2, ';') =~= seq![tok2]);
    assert(split_at_sep(body, ';') == seq![tok1] + seq![tok2]);

    assert(tok1[1] == ':' && tok1[0] == k1);
    lemma_find_char_at(tok1, ':', 1);
    assert(tok2[1] == ':' && tok2[0] == k2);
    lemma_find_char_at(tok2, ':', 1);
    let p1 = (seq![k1], v1);
    let p2 = (seq![k2], v2);
    assert(tok1.subrange(0, 1) =~= seq![k1]);
    assert(tok1.subrange(2, tok1.len() as int) =~= v1);
    assert(tok2.subrange(0, 1) =~= seq![k2]);
    assert(tok2.subrange(2, tok2.len() as int) =~= v2);

    lemma_pairs_of_append(seq![tok1], seq![tok2]);
    assert(seq![tok1].drop_first() =~= Seq::<Seq<char>>::empty());
    assert(pairs_of(seq![tok1].drop_first()) =~= Seq::<(Seq<char>, Seq<char>)>::empty());
    assert(pairs_of(seq![tok1]) =~= seq![p1]);
    assert(seq![tok2].drop_first() =~= Seq::<Seq<char>>::empty());
    assert(pairs_of(seq![tok2].drop_first()) =~= Seq::<(Seq<char>, Seq<char>)>::empty());
    assert(pairs_of(seq![tok2]) =~= seq![p2]);
    let pairs = seq![p1, p2];
    assert(pairs_of(split_at_sep(body, ';')) =~= pairs);

    assert(seq![k2] != seq![k1]) by {
        if seq![k2] == seq![k1] {
            assert(seq![k2][0] == seq![k1][0]);
        }
    }
    assert(pairs.last() == p2);
    assert(pairs.drop_last() =~= seq![p1]);
    assert(seq![p1].drop_last() =~= Seq::<(Seq<char>, Seq<char>)>::empty());
    assert(lookup_key(seq![p1], seq![k1]) == Some(v1));
    assert(lookup_key(pairs, seq![k1]) == Some(v1));
    assert(lookup_key(pairs, seq![k2]) == Some(v2));
}

/// A well-formed payload carries an SSID field and a passphrase field, in
/// either order, an optional scheme prefix and an optional trailing `;;`;
/// it binds `S` to the SSID text and `P` to the passphrase text.
pub proof fn lemma_well_formed_payload(
    ssid: Seq<char>,
    psk: Seq<char>,
    prefix: Seq<char>,
    core: Seq<char>,
    tail: Seq<char>,
)
    requires
        forall|j: int| 0 <= j < ssid.len() ==> ssid[j] != ';',
        forall|j: int| 0 <= j < psk.len() ==> psk[j] != ';',
        prefix == Seq::<char>::empty() || prefix == "WIFI:"@,
        tail == Seq::<char>::empty() || tail == ";;"@,
        core == "S:"@ + ssid + ";P:"@ + psk || core == "P:"@ + psk + ";S:"@ + ssid,
    ensures
        field_value(prefix + core + tail, "S"@) == Some(ssid),
        field_value(prefix + core + tail, "P"@) == Some(psk),
{
    reveal_strlit("WIFI:");
    reveal_strlit(";;");
    reveal_strlit("S:");
    reveal_strlit("P:");
    reveal_strlit(";P:");
    reveal_strlit(";S:");
    reveal_strlit("S");
    reveal_strlit("P");
    assert(seq!['S'] =~= "S"@);
    assert(seq!['P'] =~= "P"@);

    if core == "S:"@ + ssid + ";P:"@ + psk {
        assert(core =~= seq!['S', ':'] + ssid + seq![';'] + seq!['P', ':'] + psk);
        lemma_two_token_body('S', ssid, 'P', psk);
    } else {
        assert(core =~= seq!['P', ':'] + psk + seq![';'] + seq!['S', ':'] + ssid);
        lemma_two_token_body('P', psk, 'S', ssid);
    }
    assert(body_value(core, "S"@) == Some(ssid));
    assert(body_value(core, "P"@) == Some(psk));

    let bt = core + tail;
    if tail == ";;"@ {
        assert(bt =~= (core + seq![';']) + seq![';']);
        lemma_body_value_trailing_sep(core + seq![';'], "S"@);
        lemma_body_value_trailing_sep(core, "S"@);
        lemma_body_value_trailing_sep(core + seq![';'], "P"@);
        lemma_body_value_trailing_sep(core, "P"@);
    } else {
        assert(bt =~= core);
    }
    assert(body_value(bt, "S"@) == Some(ssid));
    assert(body_value(bt, "P"@) == Some(psk));

    if prefix == "WIFI:"@ {
        lemma_field_value_prefixed(bt, "S"@);
        lemma_field_value_prefixed(bt, "P"@);
        assert(prefix + core + tail =~= "WIFI:"@ + bt);
    } else {
        assert(prefix + core + tail =~= bt);
        assert(bt[0] == 'S' || bt[0] == 'P');
        if bt.len() >= 5 && bt.subrange(0, 5) == "WIFI:"@ {
            assert(bt.subrange(0, 5)[0] == 'W');
            assert(false);
        }
        assert(payload_body(bt) == bt);
    }
}

/// No two pairs bind the same key.
pub open spec fn unique_keys(pairs: Seq<(Seq<char>, Seq<char>)>) -> bool {
    forall|i: int, j: int| 0 <= i < j < pairs.len() ==> pairs[i].0 != pairs[j].0
}

/// The pairs a payload text yields: its body split on `;`, each token
/// split at its first `:`.
pub open spec fn payload_pairs(s: Seq<char>) -> Seq<(Seq<char>, Seq<char>)> {
    pairs_of(split_at_sep(payload_body(s), ';'))
}

/// With no repeated key, the last-wins lookup is plain membership: it
/// returns the value of the one pair holding `key`, and fails only when no
/// pair holds it.
pub proof fn lemma_lookup_key_unique(pairs: Seq<(Seq<char>, Seq<char>)>, key: Seq<char>)
    requires
        unique_keys(pairs),
    ensures
        lookup_key(pairs, key) matches Some(v) ==> pairs.contains((key, v)),
        lookup_key(pairs, key) is None ==> forall|i: int|
            0 <= i < pairs.len() ==> pairs[i].0 != key,
        forall|i: int|
            0 <= i < pairs.len() && pairs[i].0 == key ==> lookup_key(pairs, key) == Some(
                pairs[i].1,
            ),
    decreases pairs.len(),
{
    if pairs.len() == 0 {
    } else {
        let head = pairs.drop_last();
        let lst = pairs.last();
        assert(forall|i: int| 0 <= i < head.len() ==> head[i] == pairs[i]);
        lemma_lookup_key_unique(head, key);
        if lst.0 == key {
            assert(pairs[pairs.len() - 1] == lst);
            assert(pairs.contains((key, lst.1)));
            assert forall|i: int|
                0 <= i < pairs.len() && pairs[i].0 == key implies lookup_key(pairs, key) == Some(
                pairs[i].1,
            ) by {
                if i < pairs.len() - 1 {
                    assert(pairs[i].0 != pairs[pairs.len() - 1].0);
                }
            }
        } else {
            match lookup_key(head, key) {
                Some(v) => {
                    let i = choose|i: int| 0 <= i < head.len() && head[i] == (key, v);
                    assert(pairs[i] == (key, v));
                    assert(pairs.contains((key, v)));
                },
                None => {},
            }
        }
    }
}

/// Reordering the pairs changes no binding, as long as no key repeats:
/// two pair lists made of the same pairs bind every key alike.
pub proof fn lemma_lookup_key_permuted(
    p1: Seq<(Seq<char>, Seq<char>)>,
    p2: Seq<(Seq<char>, Seq<char>)>,
    key: Seq<char>,
)
    requires
        p1.to_multiset() == p2.to_multiset(),
        unique_keys(p1),
    ensures
        lookup_key(p1, key) == lookup_key(p2, key),
{
    broadcast use vstd::seq_lib::group_to_multiset_ensures;

    assert(p1.no_duplicates()) by {
        assert forall|i: int, j: int|
            0 <= i < p1.len() && 0 <= j < p1.len() && i != j implies p1[i] != p1[j] by {
            if i < j {
                assert(p1[i].0 != p1[j].0);
            } else {
                assert(p1[j].0 != p1[i].0);
            }
        }
    }
    p1.lemma_multiset_has_no_duplicates();
    p2.lemma_multiset_has_no_duplicates_conv();
    assert forall|i: int, j: int| 0 <= i < j < p2.len() implies p2[i].0 != p2[j].0 by {
        if p2[i].0 == p2[j].0 {
            assert(p2[i] != p2[j]);
            assert(p2.contains(p2[i]) && p2.contains(p2[j]));
            assert(p2.to_multiset().count(p2[i]) > 0 && p2.to_multiset().count(p2[j]) > 0);
            assert(p1.to_multiset().count(p2[i]) > 0 && p1.to_multiset().count(p2[j]) > 0);
            assert(p1.contains(p2[i]) && p1.contains(p2[j]));
            let a = choose|a: int| 0 <= a < p1.len() && p1[a] == p2[i];
            let b = choose|b: int| 0 <= b < p1.len() && p1[b] == p2[j];
            assert(a != b);
            assert(p1[a].0 != p1[b].0);
        }
    }
    lemma_lookup_key_unique(p1, key);
    lemma_lookup_key_unique(p2, key);
    match lookup_key(p1, key) {
        Some(v) => {
            assert(p1.contains((key, v)));
            assert(p1.to_multiset().count((key, v)) > 0);
            assert(p2.to_multiset().count((key, v)) > 0);
            assert(p2.contains((key, v)));
            let i = choose|i: int| 0 <= i < p2.len() && p2[i] == (key, v);
            assert(lookup_key(p2, key) == Some(p2[i].1));
        },
        None => {
            match lookup_key(p2, key) {
                Some(v2) => {
                    assert(p2.contains((key, v2)));
                    assert(p2.to_multiset().count((key, v2)) > 0);
                    assert(p1.to_multiset().count((key, v2)) > 0);
                    assert(p1.contains((key, v2)));
                    let i = choose|i: int| 0 <= i < p1.len() && p1[i] == (key, v2);
                    assert(p1[i].0 != key);
                    assert(false);
                },
                None => {},
            }
        },
    }
}

/// Reordering a payload's fields changes no binding, as long as no key
/// repeats; a trailing separator adds no pair, so it changes none either.
pub proof fn lemma_field_value_permuted(s1: Seq<char>, s2: Seq<char>, key: Seq<char>)
    requires
        payload_pairs(s1).to_multiset() == payload_pairs(s2).to_multiset(),
        unique_keys(payload_pairs(s1)),
    ensures
        field_value(s1, key) == field_value(s2, key),
{
    lemma_lookup_key_permuted(payload_pairs(s1), payload_pairs(s2), key);
}

/// First index at which `c` occurs among the characters of `s`.
pub(crate) fn find_first(s: &str, c: char) -> (r: Option<usize>)
    ensures
        match r {
            Some(i) => {
                &&& i < s@.len()
                &&& s@[i as int] == c
                &&& forall|j: int| 0 <= j < i ==> s@[j] != c
            },
            None => forall|j: int| 0 <= j < s@.len() ==> s@[j] != c,
        },
{
    let n = s.unicode_len();
    let mut i: usize = 0;
    while i < n
        invariant
            n == s@.len(),
            i <= n,
            forall|j: int| 0 <= j < i ==> s@[j] != c,
        decreases n - i,
    {
        if s.get_char(i) == c {
            return Some(i);
        }
        i = i + 1;
    }
    None
}

/// The value of one token under `key`: `Some` exactly when the token is
/// `key ":" value`.
pub(crate) fn token_value<'a>(t: &'a str, key: char) -> (r: Option<&'a str>)
    ensures
        match r {
            Some(v) => lookup_key(pairs_of(seq![t@]), seq![key]) == Some(v@),
            None => lookup_key(pairs_of(seq![t@]), seq![key]) is None,
        },
{
    let n = t.unicode_len();
    match find_first(t, ':') {
        None => {
            proof {
                lemma_find_char_missing(t@, ':');
                assert(seq![t@].drop_first() =~= Seq::<Seq<char>>::empty());
                assert(pairs_of(seq![t@].drop_first()) =~= Seq::<(Seq<char>, Seq<char>)>::empty());
                assert(pairs_of(seq![t@]) =~= Seq::<(Seq<char>, Seq<char>)>::empty());
            }
            None
        },
        Some(i) => {
            proof {
                lemma_find_char_at(t@, ':', i as int);
            }
            let ghost p = (t@.subrange(0, i as int), t@.subrange(i as int + 1, t@.len() as int));
            proof {
                assert(seq![t@].drop_first() =~= Seq::<Seq<char>>::empty());
                assert(pairs_of(seq![t@].drop_first()) =~= Seq::<(Seq<char>, Seq<char>)>::empty());
                assert(pairs_of(seq![t@]) =~= seq![p]);
                assert(seq![p].drop_last() =~= Seq::<(Seq<char>, Seq<char>)>::empty());
                assert(lookup_key(seq![p].drop_last(), seq![key]) is None);
            }
            if i == 1 && t.get_char(0) == key {
                proof {
                    assert(p.0 =~= seq![key]);
                }
                Some(t.substring_char(2, n))
            } else {
                proof {
                    if i as int == 1 {
                        assert(p.0[0] == t@[0]);
                        assert(p.0 != seq![key]);
                    } else {
                        assert(p.0.len() == i as int);
                        assert(p.0 != seq![key]);
                    }
                }
                None
            }
        },
    }
}

/// The value bound to single-character key `key` by the payload body `s`,
/// the last occurrence winning.
pub(crate) fn lookup_field<'a>(s: &'a str, key: char) -> (r: Option<&'a str>)
    ensures
        match r {
            Some(v) => body_value(s@, seq![key]) == Some(v@),
            None => body_value(s@, seq![key]) is None,
        },
    decreases s@.len(),
{
    let n = s.unicode_len();
    match find_first(s, ';') {
        None => {
            proof {
                lemma_find_char_missing(s@, ';');
                assert(split_at_sep(s@, ';') =~= seq![s@]);
            }
            token_value(s, key)
        },
        Some(i) => {
            let head = s.substring_char(0, i);
            let rest = s.substring_char(i + 1, n);
            proof {
                lemma_find_char_at(s@, ';', i as int);
                assert(split_at_sep(s@, ';') == seq![head@] + split_at_sep(rest@, ';'));
                lemma_pairs_of_append(seq![head@], split_at_sep(rest@, ';'));
                lemma_lookup_key_append(
                    pairs_of(seq![head@]),
                    pairs_of(split_at_sep(rest@, ';')),
                    seq![key],
                );
            }
            let later = lookup_field(rest, key);
            match later {
                Some(v) => Some(v),
                None => token_value(head, key),
            }
        },
    }
}

} // verus!
