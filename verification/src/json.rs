//! The JSON wire form of a bad-actor event.
//!
//! One event serializes to a single flat JSON object of string fields, in a
//! fixed key order, and parses back from that form. Serializing and parsing
//! are exact inverses: see `lemma_json_round_trip`.
//!
//! Escaping covers what the values can hold: a quote or backslash is
//! backslash-escaped and a control character becomes a `\u00..` sequence;
//! every other character stands for itself. The parser additionally accepts
//! the usual short escapes and surrounding whitespace.

use vstd::prelude::*;

use crate::event::{BadActor, BadActorView};

verus! {

/// The application name reported in every serialized event.
pub open spec fn spec_app_name() -> Seq<char> {
    "sentrypeer"@
}

/// The application version reported in every serialized event.
pub open spec fn spec_app_version() -> Seq<char> {
    "4.0.3"@
}

/// The lower-case hex digit of a value below 16.
pub open spec fn hex_digit(v: u32) -> char {
    if v < 10 {
        (48 + v) as char
    } else {
        (87 + v) as char
    }
}

/// How one character appears inside a JSON string: itself, backslash-escaped,
/// or as a `\u00..` sequence for control characters.
pub open spec fn esc_char(c: char) -> Seq<char> {
    if c == '"' {
        seq!['\\', '"']
    } else if c == '\\' {
        seq!['\\', '\\']
    } else if (c as u32) < 32 {
        seq!['\\', 'u', '0', '0', hex_digit((c as u32) / 16), hex_digit((c as u32) % 16)]
    } else {
        seq![c]
    }
}

/// A whole string escaped, character by character.
pub open spec fn esc(s: Seq<char>) -> Seq<char>
    decreases s.len(),
{
    if s.len() == 0 {
        Seq::empty()
    } else {
        esc_char(s[0]) + esc(s.drop_first())
    }
}

/// A string as it appears in the wire form: escaped, between quotes.
pub open spec fn quoted(s: Seq<char>) -> Seq<char> {
    seq!['"'] + esc(s) + seq!['"']
}

/// One `"key":"value"` member of the wire object.
pub open spec fn emit_field(key: Seq<char>, value: Seq<char>) -> Seq<char> {
    quoted(key) + seq![':'] + quoted(value)
}

/// The members of the wire object, comma-separated, in order.
pub open spec fn emit_fields(pairs: Seq<(Seq<char>, Seq<char>)>) -> Seq<char>
    decreases pairs.len(),
{
    if pairs.len() == 0 {
        Seq::empty()
    } else if pairs.len() == 1 {
        emit_field(pairs[0].0, pairs[0].1)
    } else {
        emit_fields(pairs.drop_last()) + seq![','] + emit_field(pairs.last().0, pairs.last().1)
    }
}

/// The members can also be peeled from the front: the first member, a comma,
/// then the rest.
pub proof fn lemma_emit_fields_front(pairs: Seq<(Seq<char>, Seq<char>)>)
    requires
        pairs.len() >= 2,
    ensures
        emit_fields(pairs) == emit_field(pairs[0].0, pairs[0].1) + seq![','] + emit_fields(
            pairs.drop_first(),
        ),
    decreases pairs.len(),
{
    if pairs.len() == 2 {
        reveal_with_fuel(emit_fields, 3);
        assert(pairs.drop_last() =~= seq![pairs[0]]);
        assert(pairs.drop_first() =~= seq![pairs[1]]);
        assert(emit_fields(pairs) =~= emit_field(pairs[0].0, pairs[0].1) + seq![','] + emit_fields(
            pairs.drop_first(),
        ));
    } else {
        reveal_with_fuel(emit_fields, 3);
        lemma_emit_fields_front(pairs.drop_last());
        assert(pairs.drop_last().drop_first() =~= pairs.drop_first().drop_last());
        assert(pairs.drop_last()[0] == pairs[0]);
        assert(pairs.drop_first().last() == pairs.last());
        assert(emit_fields(pairs.drop_first()) == emit_fields(pairs.drop_first().drop_last())
            + seq![','] + emit_field(pairs.last().0, pairs.last().1));
        assert(emit_fields(pairs) =~= emit_field(pairs[0].0, pairs[0].1) + seq![','] + emit_fields(
            pairs.drop_first(),
        ));
    }
}

/// The key/value pairs of an event's wire object, in their fixed order.
pub open spec fn spec_event_pairs(e: BadActorView) -> Seq<(Seq<char>, Seq<char>)> {
    seq![
        ("app_name"@, spec_app_name()),
        ("app_version"@, spec_app_version()),
        ("event_timestamp"@, e.event_timestamp),
        ("event_uuid"@, e.event_uuid),
        ("created_by_node_id"@, e.created_by_node_id),
        ("collected_method"@, e.collected_method),
        ("transport_type"@, e.transport_type),
        ("source_ip"@, e.source_ip),
        ("destination_ip"@, e.destination_ip),
        ("called_number"@, e.called_number),
        ("sip_method"@, e.method),
        ("sip_user_agent"@, e.user_agent),
        ("sip_message"@, e.sip_message),
    ]
}

/// The complete wire form of one event.
pub open spec fn spec_bad_actor_json(e: BadActorView) -> Seq<char> {
    seq!['{'] + emit_fields(spec_event_pairs(e)) + seq!['}']
}

/// Relies on String::push of std: appends one character.
#[verifier::external_body]
fn push_char(s: &mut String, c: char)
    ensures
        final(s)@ == old(s)@.push(c),
{
    s.push(c)
}

/// The executable form of `hex_digit`.
fn hex_digit_char(v: u32) -> (r: char)
    requires
        v < 16,
    ensures
        r == hex_digit(v),
{
    if v < 10 {
        (48 + v as u8) as char
    } else {
        (87 + v as u8) as char
    }
}

/// Escaping distributes over concatenation.
pub proof fn lemma_esc_append(a: Seq<char>, b: Seq<char>)
    ensures
        esc(a + b) == esc(a) + esc(b),
    decreases a.len(),
{
    if a.len() == 0 {
        assert(a + b =~= b);
        assert(esc(a) + esc(b) =~= esc(b));
    } else {
        lemma_esc_append(a.drop_first(), b);
        assert((a + b).drop_first() =~= a.drop_first() + b);
        assert(esc(a + b) =~= esc(a) + esc(b));
    }
}

/// Appends the escaped form of `s` to `out`.
fn push_escaped(out: &mut String, s: &str)
    ensures
        final(out)@ == old(out)@ + esc(s@),
{
    let ghost s_view = s@;
    let n = s.unicode_len();
    let mut i: usize = 0;
    proof {
        assert(s_view.subrange(0, 0) =~= Seq::<char>::empty());
        assert(esc(Seq::<char>::empty()) =~= Seq::<char>::empty());
        assert(out@ =~= old(out)@ + esc(s_view.subrange(0, 0)));
    }
    while i < n
        invariant
            n == s_view.len(),
            s@ == s_view,
            0 <= i <= n,
            out@ == old(out)@ + esc(s_view.subrange(0, i as int)),
        decreases n - i,
    {
        let c = s.get_char(i);
        let v = c as u32;
        if c == '"' {
            push_char(out, '\\');
            push_char(out, '"');
        } else if c == '\\' {
            push_char(out, '\\');
            push_char(out, '\\');
        } else if v < 32 {
            push_char(out, '\\');
            push_char(out, 'u');
            push_char(out, '0');
            push_char(out, '0');
            push_char(out, hex_digit_char(v / 16));
            push_char(out, hex_digit_char(v % 16));
        } else {
            push_char(out, c);
        }
        proof {
            let pre = s_view.subrange(0, i as int);
            let post = s_view.subrange(0, i + 1 as int);
            assert(post =~= pre + seq![s_view[i as int]]);
            lemma_esc_append(pre, seq![s_view[i as int]]);
            assert(seq![s_view[i as int]].drop_first() =~= Seq::<char>::empty());
            assert(esc(Seq::<char>::empty()) == Seq::<char>::empty());
            assert(esc(seq![s_view[i as int]]) =~= esc_char(s_view[i as int]));
            assert(out@ =~= old(out)@ + esc(post));
        }
        i = i + 1;
    }
    proof {
        assert(s_view.subrange(0, n as int) =~= s_view);
    }
}

/// Appends the quoted, escaped form of `s` to `out`.
fn push_quoted(out: &mut String, s: &str)
    ensures
        final(out)@ == old(out)@ + quoted(s@),
{
    push_char(out, '"');
    push_escaped(out, s);
    push_char(out, '"');
    proof {
        assert(out@ =~= old(out)@ + quoted(s@));
    }
}

/// Appends one `"key":"value"` member to `out`.
fn push_field(out: &mut String, key: &str, value: &str)
    ensures
        final(out)@ == old(out)@ + emit_field(key@, value@),
{
    push_quoted(out, key);
    push_char(out, ':');
    push_quoted(out, value);
    proof {
        assert(out@ =~= old(out)@ + emit_field(key@, value@));
    }
}

/// Appends a comma and one more member, extending a partially built object.
/// `k` is how many members stand in `out` already.
fn push_next_field(out: &mut String, key: &str, value: &str, Ghost(pairs): Ghost<
    Seq<(Seq<char>, Seq<char>)>,
>, Ghost(k): Ghost<int>)
    requires
        1 <= k < pairs.len(),
        pairs[k].0 == key@,
        pairs[k].1 == value@,
        old(out)@ == seq!['{'] + emit_fields(pairs.take(k)),
    ensures
        final(out)@ == seq!['{'] + emit_fields(pairs.take(k + 1)),
{
    push_char(out, ',');
    push_field(out, key, value);
    proof {
        let t = pairs.take(k + 1);
        assert(t.drop_last() =~= pairs.take(k));
        assert(t.last() == pairs[k]);
        assert(out@ =~= seq!['{'] + emit_fields(t));
    }
}

/// Serializes an event to its wire JSON form.
pub fn bad_actor_to_json(e: &BadActor) -> (r: String)
    ensures
        r@ == spec_bad_actor_json(e@),
{
    let ghost pairs = spec_event_pairs(e@);
    let mut out = String::new();
    push_char(&mut out, '{');
    push_field(&mut out, "app_name", "sentrypeer");
    proof {
        assert(pairs.take(1) =~= seq![pairs[0]]);
        assert(out@ =~= seq!['{'] + emit_fields(pairs.take(1)));
    }
    push_next_field(&mut out, "app_version", "4.0.3", Ghost(pairs), Ghost(1));
    push_next_field(&mut out, "event_timestamp", self_str(&e.event_timestamp), Ghost(pairs), Ghost(2));
    push_next_field(&mut out, "event_uuid", self_str(&e.event_uuid), Ghost(pairs), Ghost(3));
    push_next_field(
        &mut out,
        "created_by_node_id",
        self_str(&e.created_by_node_id),
        Ghost(pairs),
        Ghost(4),
    );
    push_next_field(
        &mut out,
        "collected_method",
        self_str(&e.collected_method),
        Ghost(pairs),
        Ghost(5),
    );
    push_next_field(&mut out, "transport_type", self_str(&e.transport_type), Ghost(pairs), Ghost(6));
    push_next_field(&mut out, "source_ip", self_str(&e.source_ip), Ghost(pairs), Ghost(7));
    push_next_field(&mut out, "destination_ip", self_str(&e.destination_ip), Ghost(pairs), Ghost(8));
    push_next_field(&mut out, "called_number", self_str(&e.called_number), Ghost(pairs), Ghost(9));
    push_next_field(&mut out, "sip_method", self_str(&e.method), Ghost(pairs), Ghost(10));
    push_next_field(&mut out, "sip_user_agent", self_str(&e.user_agent), Ghost(pairs), Ghost(11));
    push_next_field(&mut out, "sip_message", self_str(&e.sip_message), Ghost(pairs), Ghost(12));
    push_char(&mut out, '}');
    proof {
        assert(pairs.take(13) =~= pairs);
        assert(out@ =~= spec_bad_actor_json(e@));
    }
    out
}

/// Borrows a `String` as a `&str`, keeping its view.
fn self_str(s: &String) -> (r: &str)
    ensures
        r@ == s@,
{
    s.as_str()
}

/// JSON whitespace, skipped between tokens when parsing.
pub open spec fn is_json_ws(c: char) -> bool {
    c == ' ' || c == '\t' || c == '\n' || c == '\r'
}

/// Index of the first non-whitespace character at or after `i`, or the length.
pub open spec fn spec_skip_ws(s: Seq<char>, i: int) -> int
    decreases s.len() - i,
{
    if i < 0 || i >= s.len() {
        s.len() as int
    } else if is_json_ws(s[i]) {
        spec_skip_ws(s, i + 1)
    } else {
        i
    }
}

/// The value of a hex digit, upper or lower case.
pub open spec fn hex_val(c: char) -> Option<u32> {
    let v = c as u32;
    if 48 <= v && v <= 57 {
        Option::Some((v - 48) as u32)
    } else if 97 <= v && v <= 102 {
        Option::Some((v - 87) as u32)
    } else if 65 <= v && v <= 70 {
        Option::Some((v - 55) as u32)
    } else {
        Option::None
    }
}

/// One escape sequence, starting right after the backslash: the character it
/// stands for and the position after it. `\u` escapes are accepted for code
/// points below the surrogate range.
pub open spec fn spec_parse_escape(s: Seq<char>, i: int) -> Option<(char, int)> {
    if i < 0 || i >= s.len() {
        Option::None
    } else if s[i] == '"' {
        Option::Some(('"', i + 1))
    } else if s[i] == '\\' {
        Option::Some(('\\', i + 1))
    } else if s[i] == '/' {
        Option::Some(('/', i + 1))
    } else if s[i] == 'n' {
        Option::Some(('\n', i + 1))
    } else if s[i] == 't' {
        Option::Some(('\t', i + 1))
    } else if s[i] == 'r' {
        Option::Some(('\r', i + 1))
    } else if s[i] == 'b' {
        Option::Some(('\u{0008}', i + 1))
    } else if s[i] == 'f' {
        Option::Some(('\u{000C}', i + 1))
    } else if s[i] == 'u' && i + 5 <= s.len() {
        match (hex_val(s[i + 1]), hex_val(s[i + 2]), hex_val(s[i + 3]), hex_val(s[i + 4])) {
            (Option::Some(d3), Option::Some(d2), Option::Some(d1), Option::Some(d0)) => {
                let v = (d3 * 4096 + d2 * 256 + d1 * 16 + d0) as u32;
                if v < 0xD800 {
                    Option::Some((v as char, i + 5))
                } else {
                    Option::None
                }
            },
            _ => Option::None,
        }
    } else {
        Option::None
    }
}

/// The body of a JSON string, starting right after the opening quote: the
/// decoded characters and the position after the closing quote.
pub open spec fn spec_parse_string_body(s: Seq<char>, i: int) -> Option<(Seq<char>, int)>
    decreases s.len() - i,
{
    if i < 0 || i >= s.len() {
        Option::None
    } else if s[i] == '"' {
        Option::Some((Seq::empty(), i + 1))
    } else if s[i] == '\\' {
        match spec_parse_escape(s, i + 1) {
            Option::Some((c, j)) => if i < j <= s.len() {
                match spec_parse_string_body(s, j) {
                    Option::Some((rest, k)) => Option::Some((seq![c] + rest, k)),
                    Option::None => Option::None,
                }
            } else {
                Option::None
            },
            Option::None => Option::None,
        }
    } else if (s[i] as u32) >= 32 {
        match spec_parse_string_body(s, i + 1) {
            Option::Some((rest, k)) => Option::Some((seq![s[i]] + rest, k)),
            Option::None => Option::None,
        }
    } else {
        Option::None
    }
}

/// A quoted string at `i`: its decoded value and the position after it.
pub open spec fn spec_parse_quoted(s: Seq<char>, i: int) -> Option<(Seq<char>, int)> {
    if 0 <= i && i < s.len() && s[i] == '"' {
        spec_parse_string_body(s, i + 1)
    } else {
        Option::None
    }
}

/// The position after one expected punctuation character, whitespace before
/// it skipped.
pub open spec fn spec_expect(s: Seq<char>, i: int, c: char) -> Option<int> {
    let j = spec_skip_ws(s, i);
    if j < s.len() && s[j] == c {
        Option::Some(j + 1)
    } else {
        Option::None
    }
}

/// One `"key":"value"` member whose key must be `key`: the value and the
/// position after it.
pub open spec fn spec_parse_field(s: Seq<char>, i: int, key: Seq<char>) -> Option<(Seq<char>, int)> {
    match spec_parse_quoted(s, spec_skip_ws(s, i)) {
        Option::Some((k, j)) => if k == key {
            match spec_expect(s, j, ':') {
                Option::Some(j2) => spec_parse_quoted(s, spec_skip_ws(s, j2)),
                Option::None => Option::None,
            }
        } else {
            Option::None
        },
        Option::None => Option::None,
    }
}

/// The members of an object, against an expected key list, comma-separated:
/// the values in key order and the position after the last member.
pub open spec fn spec_parse_fields(s: Seq<char>, i: int, keys: Seq<Seq<char>>) -> Option<
    (Seq<Seq<char>>, int),
>
    decreases keys.len(),
{
    if keys.len() == 0 {
        Option::Some((Seq::empty(), i))
    } else {
        match spec_parse_field(s, i, keys[0]) {
            Option::Some((v, j)) => if keys.len() == 1 {
                Option::Some((seq![v], j))
            } else {
                match spec_expect(s, j, ',') {
                    Option::Some(j2) => match spec_parse_fields(s, j2, keys.drop_first()) {
                        Option::Some((vs, k)) => Option::Some((seq![v] + vs, k)),
                        Option::None => Option::None,
                    },
                    Option::None => Option::None,
                }
            },
            Option::None => Option::None,
        }
    }
}

/// The keys of the wire object, in their fixed order.
pub open spec fn spec_event_keys() -> Seq<Seq<char>> {
    seq![
        "app_name"@,
        "app_version"@,
        "event_timestamp"@,
        "event_uuid"@,
        "created_by_node_id"@,
        "collected_method"@,
        "transport_type"@,
        "source_ip"@,
        "destination_ip"@,
        "called_number"@,
        "sip_method"@,
        "sip_user_agent"@,
        "sip_message"@,
    ]
}

/// The event a complete wire object parses to, or nothing if the text is not
/// of the wire form: one object with exactly the expected members in order,
/// whitespace allowed around punctuation, nothing but whitespace after it.
pub open spec fn spec_parse_bad_actor(s: Seq<char>) -> Option<BadActorView> {
    match spec_expect(s, 0, '{') {
        Option::Some(i1) => match spec_parse_fields(s, i1, spec_event_keys()) {
            Option::Some((vs, j)) => match spec_expect(s, j, '}') {
                Option::Some(j2) => if spec_skip_ws(s, j2) == s.len() {
                    Option::Some(
                        BadActorView {
                            event_timestamp: vs[2],
                            event_uuid: vs[3],
                            created_by_node_id: vs[4],
                            collected_method: vs[5],
                            transport_type: vs[6],
                            source_ip: vs[7],
                            destination_ip: vs[8],
                            called_number: vs[9],
                            method: vs[10],
                            user_agent: vs[11],
                            sip_message: vs[12],
                        },
                    )
                } else {
                    Option::None
                },
                Option::None => Option::None,
            },
            Option::None => Option::None,
        },
        Option::None => Option::None,
    }
}

/// Relies on char::from_u32 of std: `Some` exactly at unicode scalar values
/// (below the surrogate range, or above it up to the maximum code point),
/// returning the character with that value.
#[verifier::external_body]
fn char_from_u32(v: u32) -> (r: Option<char>)
    ensures
        (v < 0xD800 || (0xE000 <= v && v <= 0x10FFFF)) ==> r == Option::Some(v as char),
        !(v < 0xD800 || (0xE000 <= v && v <= 0x10FFFF)) ==> r is None,
{
    char::from_u32(v)
}

/// Whether an executable parse result and a specification parse result are
/// the same string and position.
pub open spec fn str_pos_matches(r: Option<(String, usize)>, m: Option<(Seq<char>, int)>) -> bool {
    match (r, m) {
        (Option::None, Option::None) => true,
        (Option::Some((v, j)), Option::Some((mv, mj))) => v@ == mv && j as int == mj,
        _ => false,
    }
}

/// The executable form of `spec_skip_ws`.
fn skip_ws(s: &str, start: usize) -> (r: usize)
    requires
        start <= s@.len(),
    ensures
        r == spec_skip_ws(s@, start as int),
        start <= r <= s@.len(),
{
    let n = s.unicode_len();
    let mut i = start;
    loop
        invariant
            start <= i <= n,
            n == s@.len(),
            spec_skip_ws(s@, i as int) == spec_skip_ws(s@, start as int),
        decreases n - i,
    {
        if i >= n {
            return i;
        }
        let c = s.get_char(i);
        if !(c == ' ' || c == '\t' || c == '\n' || c == '\r') {
            return i;
        }
        i = i + 1;
    }
}

/// The executable form of `hex_val`.
fn hex_val_exec(c: char) -> (r: Option<u32>)
    ensures
        r == hex_val(c),
{
    let v = c as u32;
    if 48 <= v && v <= 57 {
        Some(v - 48)
    } else if 97 <= v && v <= 102 {
        Some(v - 87)
    } else if 65 <= v && v <= 70 {
        Some(v - 55)
    } else {
        None
    }
}

/// The executable form of `spec_parse_escape`.
fn parse_escape(s: &str, i: usize) -> (r: Option<(char, usize)>)
    requires
        i <= s@.len(),
    ensures
        match r {
            Option::Some((c, j)) => spec_parse_escape(s@, i as int) == Option::Some((c, j as int))
                && i < j <= s@.len(),
            Option::None => spec_parse_escape(s@, i as int) is None,
        },
{
    let n = s.unicode_len();
    if i >= n {
        return None;
    }
    let c = s.get_char(i);
    if c == '"' {
        Some(('"', i + 1))
    } else if c == '\\' {
        Some(('\\', i + 1))
    } else if c == '/' {
        Some(('/', i + 1))
    } else if c == 'n' {
        Some(('\n', i + 1))
    } else if c == 't' {
        Some(('\t', i + 1))
    } else if c == 'r' {
        Some(('\r', i + 1))
    } else if c == 'b' {
        Some(('\u{0008}', i + 1))
    } else if c == 'f' {
        Some(('\u{000C}', i + 1))
    } else if c == 'u' && n - i >= 5 {
        let d3 = hex_val_exec(s.get_char(i + 1));
        let d2 = hex_val_exec(s.get_char(i + 2));
        let d1 = hex_val_exec(s.get_char(i + 3));
        let d0 = hex_val_exec(s.get_char(i + 4));
        match (d3, d2, d1, d0) {
            (Some(d3), Some(d2), Some(d1), Some(d0)) => {
                let v = d3 * 4096 + d2 * 256 + d1 * 16 + d0;
                if v < 0xD800 {
                    match char_from_u32(v) {
                        Some(c) => Some((c, i + 5)),
                        None => None,
                    }
                } else {
                    None
                }
            },
            _ => None,
        }
    } else {
        None
    }
}

/// The executable form of `spec_parse_string_body`.
fn parse_string_body(s: &str, start: usize) -> (r: Option<(String, usize)>)
    requires
        start <= s@.len(),
    ensures
        str_pos_matches(r, spec_parse_string_body(s@, start as int)),
        (match r {
            Option::Some((v, j)) => j <= s@.len(),
            Option::None => true,
        }),
{
    let n = s.unicode_len();
    let mut acc = String::new();
    let mut i = start;
    loop
        invariant
            i <= n,
            n == s@.len(),
            (match spec_parse_string_body(s@, i as int) {
                Option::Some((rest, k)) => spec_parse_string_body(s@, start as int)
                    == Option::Some((acc@ + rest, k)),
                Option::None => spec_parse_string_body(s@, start as int) is None,
            }),
        decreases n - i,
    {
        if i >= n {
            return None;
        }
        let c = s.get_char(i);
        if c == '"' {
            proof {
                assert(spec_parse_string_body(s@, i as int) == Option::Some(
                    (Seq::<char>::empty(), i + 1 as int),
                ));
                assert(acc@ + Seq::<char>::empty() =~= acc@);
            }
            return Some((acc, i + 1));
        } else if c == '\\' {
            match parse_escape(s, i + 1) {
                Some((ec, j)) => {
                    let ghost prev = acc@;
                    push_char(&mut acc, ec);
                    proof {
                        assert(acc@ =~= prev + seq![ec]);
                        match spec_parse_string_body(s@, j as int) {
                            Option::Some((rest, k)) => {
                                assert(spec_parse_string_body(s@, i as int) == Option::Some(
                                    (seq![ec] + rest, k),
                                ));
                                assert(prev + (seq![ec] + rest) =~= acc@ + rest);
                            },
                            Option::None => {
                                assert(spec_parse_string_body(s@, i as int) is None);
                            },
                        }
                    }
                    i = j;
                },
                None => {
                    return None;
                },
            }
        } else if c as u32 >= 32 {
            let ghost prev = acc@;
            push_char(&mut acc, c);
            proof {
                assert(acc@ =~= prev + seq![c]);
                match spec_parse_string_body(s@, i + 1 as int) {
                    Option::Some((rest, k)) => {
                        assert(spec_parse_string_body(s@, i as int) == Option::Some(
                            (seq![c] + rest, k),
                        ));
                        assert(prev + (seq![c] + rest) =~= acc@ + rest);
                    },
                    Option::None => {
                        assert(spec_parse_string_body(s@, i as int) is None);
                    },
                }
            }
            i = i + 1;
        } else {
            return None;
        }
    }
}

/// The executable form of `spec_parse_quoted`.
fn parse_quoted(s: &str, i: usize) -> (r: Option<(String, usize)>)
    requires
        i <= s@.len(),
    ensures
        str_pos_matches(r, spec_parse_quoted(s@, i as int)),
        (match r {
            Option::Some((v, j)) => j <= s@.len(),
            Option::None => true,
        }),
{
    let n = s.unicode_len();
    if i < n {
        let c = s.get_char(i);
        if c == '"' {
            parse_string_body(s, i + 1)
        } else {
            None
        }
    } else {
        None
    }
}

/// The executable form of `spec_expect`.
fn expect_char(s: &str, i: usize, c: char) -> (r: Option<usize>)
    requires
        i <= s@.len(),
    ensures
        (match r {
            Option::Some(j) => spec_expect(s@, i as int, c) == Option::Some(j as int) && j <= s@.len(),
            Option::None => spec_expect(s@, i as int, c) is None,
        }),
{
    let j = skip_ws(s, i);
    let n = s.unicode_len();
    if j < n {
        let found = s.get_char(j);
        if found == c {
            return Some(j + 1);
        }
    }
    None
}

/// The executable form of `spec_parse_field`.
fn parse_field(s: &str, i: usize, key: &str) -> (r: Option<(String, usize)>)
    requires
        i <= s@.len(),
    ensures
        str_pos_matches(r, spec_parse_field(s@, i as int, key@)),
        (match r {
            Option::Some((v, j)) => j <= s@.len(),
            Option::None => true,
        }),
{
    let i0 = skip_ws(s, i);
    match parse_quoted(s, i0) {
        Some((k, j)) => {
            let key_string = String::from_str(key);
            if !(k == key_string) {
                return None;
            }
            match expect_char(s, j, ':') {
                Some(j2) => {
                    let j3 = skip_ws(s, j2);
                    parse_quoted(s, j3)
                },
                None => None,
            }
        },
        None => None,
    }
}

/// Parses the wire JSON form back into an event. Accepts exactly the wire
/// form — one object with the expected members in order, whitespace allowed
/// around punctuation — and nothing else.
pub fn json_to_bad_actor(s: &str) -> (r: Option<BadActor>)
    ensures
        (match r {
            Option::Some(b) => spec_parse_bad_actor(s@) == Option::Some(b@),
            Option::None => spec_parse_bad_actor(s@) is None,
        }),
{
    let n = s.unicode_len();
    let i1 = match expect_char(s, 0, '{') {
        Some(j) => j,
        None => {
            return None;
        },
    };
    let keys: Vec<&str> = vec![
        "app_name",
        "app_version",
        "event_timestamp",
        "event_uuid",
        "created_by_node_id",
        "collected_method",
        "transport_type",
        "source_ip",
        "destination_ip",
        "called_number",
        "sip_method",
        "sip_user_agent",
        "sip_message",
    ];
    proof {
        assert(keys.deep_view() =~= spec_event_keys());
    }
    let mut vals: Vec<String> = Vec::new();
    let mut i = i1;
    let mut idx: usize = 0;
    proof {
        assert(spec_event_keys().skip(0) =~= spec_event_keys());
        assert(vals.deep_view() =~= Seq::<Seq<char>>::empty());
        match spec_parse_fields(s@, i1 as int, spec_event_keys()) {
            Option::Some((vs, k)) => {
                assert(vals.deep_view() + vs =~= vs);
            },
            Option::None => {},
        }
    }
    while idx < 13
        invariant
            idx <= 13,
            i <= s@.len(),
            n == s@.len(),
            spec_expect(s@, 0, '{') == Option::Some(i1 as int),
            keys.deep_view() == spec_event_keys(),
            keys@.len() == 13,
            vals@.len() == idx,
            (match spec_parse_fields(s@, i as int, spec_event_keys().skip(idx as int)) {
                Option::Some((vs, k)) => spec_parse_fields(s@, i1 as int, spec_event_keys())
                    == Option::Some((vals.deep_view() + vs, k)),
                Option::None => spec_parse_fields(s@, i1 as int, spec_event_keys()) is None,
            }),
        decreases 13 - idx,
    {
        let ghost kk = spec_event_keys().skip(idx as int);
        proof {
            assert(kk.len() == 13 - idx);
            assert(kk[0] == spec_event_keys()[idx as int]);
            assert(keys.deep_view()[idx as int] == keys@[idx as int]@);
        }
        let key = keys[idx];
        match parse_field(s, i, key) {
            Some((v, j)) => {
                if idx < 12 {
                    match expect_char(s, j, ',') {
                        Some(j2) => {
                            let ghost prev = vals.deep_view();
                            vals.push(v);
                            proof {
                                assert(vals.deep_view() =~= prev.push(v@));
                                assert(kk.drop_first() =~= spec_event_keys().skip(idx + 1));
                                match spec_parse_fields(s@, j2 as int, kk.drop_first()) {
                                    Option::Some((vs, k)) => {
                                        assert(spec_parse_fields(s@, i as int, kk)
                                            == Option::Some((seq![v@] + vs, k)));
                                        assert(prev + (seq![v@] + vs) =~= vals.deep_view() + vs);
                                    },
                                    Option::None => {
                                        assert(spec_parse_fields(s@, i as int, kk) is None);
                                    },
                                }
                            }
                            i = j2;
                            idx = idx + 1;
                        },
                        None => {
                            proof {
                                assert(spec_parse_fields(s@, i as int, kk) is None);
                                assert(spec_parse_fields(s@, i1 as int, spec_event_keys()) is None);
                                assert(spec_parse_bad_actor(s@) is None);
                            }
                            return None;
                        },
                    }
                } else {
                    let ghost prev = vals.deep_view();
                    vals.push(v);
                    proof {
                        assert(vals.deep_view() =~= prev.push(v@));
                        assert(kk.len() == 1);
                        assert(spec_parse_fields(s@, i as int, kk) == Option::Some(
                            (seq![v@], j as int),
                        ));
                        assert(spec_event_keys().skip(13) =~= Seq::<Seq<char>>::empty());
                        assert(spec_parse_fields(s@, j as int, spec_event_keys().skip(13))
                            == Option::Some((Seq::<Seq<char>>::empty(), j as int)));
                        assert(prev + seq![v@] =~= vals.deep_view()
                            + Seq::<Seq<char>>::empty());
                    }
                    i = j;
                    idx = idx + 1;
                }
            },
            None => {
                proof {
                    assert(spec_parse_fields(s@, i as int, kk) is None);
                    assert(spec_parse_fields(s@, i1 as int, spec_event_keys()) is None);
                    assert(spec_parse_bad_actor(s@) is None);
                }
                return None;
            },
        }
    }
    proof {
        assert(spec_event_keys().skip(13) =~= Seq::<Seq<char>>::empty());
        assert(spec_parse_fields(s@, i as int, spec_event_keys().skip(13)) == Option::Some(
            (Seq::<Seq<char>>::empty(), i as int),
        ));
        assert(vals.deep_view() + Seq::<Seq<char>>::empty() =~= vals.deep_view());
    }
    let j2 = match expect_char(s, i, '}') {
        Some(j) => j,
        None => {
            return None;
        },
    };
    let j3 = skip_ws(s, j2);
    if j3 != n {
        return None;
    }
    let b = BadActor {
        event_timestamp: vals[2].clone(),
        event_uuid: vals[3].clone(),
        created_by_node_id: vals[4].clone(),
        collected_method: vals[5].clone(),
        transport_type: vals[6].clone(),
        source_ip: vals[7].clone(),
        destination_ip: vals[8].clone(),
        called_number: vals[9].clone(),
        method: vals[10].clone(),
        user_agent: vals[11].clone(),
        sip_message: vals[12].clone(),
    };
    proof {
        assert(forall|k: int| 0 <= k < 13 ==> vals.deep_view()[k] == vals@[k]@);
    }
    Some(b)
}

/// The key/value pairs of the client-credentials token request, in order.
pub open spec fn spec_token_request_pairs(
    client_id: Seq<char>,
    client_secret: Seq<char>,
    audience: Seq<char>,
) -> Seq<(Seq<char>, Seq<char>)> {
    seq![
        ("client_id"@, client_id),
        ("client_secret"@, client_secret),
        ("audience"@, audience),
        ("grant_type"@, "client_credentials"@),
    ]
}

/// The JSON body POSTed to the OAuth2 token endpoint.
pub open spec fn spec_token_request_json(
    client_id: Seq<char>,
    client_secret: Seq<char>,
    audience: Seq<char>,
) -> Seq<char> {
    seq!['{'] + emit_fields(spec_token_request_pairs(client_id, client_secret, audience))
        + seq!['}']
}

/// Builds the client-credentials request body for the token endpoint.
pub fn token_request_json(client_id: &str, client_secret: &str, audience: &str) -> (r: String)
    ensures
        r@ == spec_token_request_json(client_id@, client_secret@, audience@),
{
    let ghost pairs = spec_token_request_pairs(client_id@, client_secret@, audience@);
    let mut out = String::new();
    push_char(&mut out, '{');
    push_field(&mut out, "client_id", client_id);
    proof {
        assert(pairs.take(1) =~= seq![pairs[0]]);
        assert(out@ =~= seq!['{'] + emit_fields(pairs.take(1)));
    }
    push_next_field(&mut out, "client_secret", client_secret, Ghost(pairs), Ghost(1));
    push_next_field(&mut out, "audience", audience, Ghost(pairs), Ghost(2));
    push_next_field(&mut out, "grant_type", "client_credentials", Ghost(pairs), Ghost(3));
    push_char(&mut out, '}');
    proof {
        assert(pairs.take(4) =~= pairs);
        assert(out@ =~= spec_token_request_json(client_id@, client_secret@, audience@));
    }
    out
}

/// One line of the JSON log: the wire form of the event and a newline.
pub fn json_log_line(e: &BadActor) -> (r: String)
    ensures
        r@ == spec_bad_actor_json(e@).push('\n'),
{
    let mut out = bad_actor_to_json(e);
    push_char(&mut out, '\n');
    out
}

/// Splits knowledge of a region of `s` into its two halves.
proof fn lemma_subrange_split(s: Seq<char>, i: int, a: Seq<char>, b: Seq<char>)
    requires
        0 <= i,
        i + a.len() + b.len() <= s.len(),
        s.subrange(i, i + a.len() + b.len()) == a + b,
    ensures
        s.subrange(i, i + a.len()) == a,
        s.subrange(i + a.len(), i + a.len() + b.len()) == b,
{
    let ab = a + b;
    assert(forall|k: int|
        0 <= k < ab.len() ==> s[i + k] == #[trigger] ab[k]) by {
        assert(forall|k: int|
            0 <= k < ab.len() ==> #[trigger] ab[k] == s.subrange(i, i + ab.len() as int)[k]);
    }
    assert(s.subrange(i, i + a.len()) =~= a);
    assert(forall|k: int| 0 <= k < b.len() ==> #[trigger] b[k] == ab[a.len() + k]);
    assert(s.subrange(i + a.len(), i + a.len() + b.len()) =~= b);
}

/// Skipping whitespace at a non-whitespace character goes nowhere.
proof fn lemma_skip_ws_at(s: Seq<char>, i: int)
    requires
        0 <= i < s.len(),
        !is_json_ws(s[i]),
    ensures
        spec_skip_ws(s, i) == i,
{
}

/// A hex digit parses back to its value.
proof fn lemma_hex_val_digit(d: u32)
    requires
        d < 16,
    ensures
        hex_val(hex_digit(d)) == Option::Some(d),
{
    if d < 10 {
        assert((((48 + d) as char) as u32) == 48 + d);
    } else {
        assert((((87 + d) as char) as u32) == 87 + d);
    }
}

/// The body parser inverts escaping: where `s` holds the escaped form of
/// `body` followed by a closing quote, it yields exactly `body` and stops
/// right after that quote.
proof fn lemma_parse_body_of_esc(s: Seq<char>, i: int, body: Seq<char>)
    requires
        0 <= i,
        i + esc(body).len() + 1 <= s.len(),
        s.subrange(i, i + esc(body).len() + 1) == esc(body) + seq!['"'],
    ensures
        spec_parse_string_body(s, i) == Option::Some((body, i + esc(body).len() + 1)),
    decreases body.len(),
{
    let e = esc(body);
    let m = e.len() as int;
    let endp = i + m + 1;
    if body.len() == 0 {
        assert(e =~= Seq::<char>::empty());
        assert(s[i] == (e + seq!['"'])[0]);
        assert(s[i] == '"');
        assert(spec_parse_string_body(s, i) == Option::Some((Seq::<char>::empty(), i + 1)));
        assert(body =~= Seq::<char>::empty());
    } else {
        let c = body[0];
        let rest = body.drop_first();
        let ec = esc_char(c);
        assert(e == ec + esc(rest));
        let m2 = esc(rest).len() as int;
        assert(m == ec.len() + m2);
        assert((ec + esc(rest)) + seq!['"'] =~= ec + (esc(rest) + seq!['"']));
        lemma_subrange_split(s, i, ec, esc(rest) + seq!['"']);
        assert(s.subrange(i + ec.len(), endp) == esc(rest) + seq!['"']);
        let sub = s.subrange(i, i + ec.len() as int);
        if c == '"' {
            assert(ec =~= seq!['\\', '"']);
            assert(s[i] == sub[0] && s[i + 1] == sub[1]);
            assert(s[i] == '\\' && s[i + 1] == '"');
            assert(spec_parse_escape(s, i + 1) == Option::Some(('"', i + 2)));
            lemma_parse_body_of_esc(s, i + 2, rest);
            assert(spec_parse_string_body(s, i) == Option::Some((seq![c] + rest, endp)));
            assert(seq![c] + rest =~= body);
        } else if c == '\\' {
            assert(ec =~= seq!['\\', '\\']);
            assert(s[i] == sub[0] && s[i + 1] == sub[1]);
            assert(s[i] == '\\' && s[i + 1] == '\\');
            assert(spec_parse_escape(s, i + 1) == Option::Some(('\\', i + 2)));
            lemma_parse_body_of_esc(s, i + 2, rest);
            assert(spec_parse_string_body(s, i) == Option::Some((seq![c] + rest, endp)));
            assert(seq![c] + rest =~= body);
        } else if (c as u32) < 32 {
            let v = c as u32;
            assert(ec =~= seq!['\\', 'u', '0', '0', hex_digit(v / 16), hex_digit(v % 16)]);
            assert(s[i] == sub[0] && s[i + 1] == sub[1] && s[i + 2] == sub[2] && s[i + 3] == sub[3]
                && s[i + 4] == sub[4] && s[i + 5] == sub[5]);
            assert(s[i] == '\\' && s[i + 1] == 'u' && s[i + 2] == '0' && s[i + 3] == '0');
            assert(s[i + 4] == hex_digit(v / 16) && s[i + 5] == hex_digit(v % 16));
            assert(hex_val('0') == Option::Some(0u32));
            lemma_hex_val_digit(v / 16);
            lemma_hex_val_digit(v % 16);
            assert((0 * 4096 + 0 * 256 + (v / 16) * 16 + v % 16) as u32 == v);
            vstd::utf8::char_u32_cast(c, v);
            assert(spec_parse_escape(s, i + 1) == Option::Some((c, i + 6)));
            lemma_parse_body_of_esc(s, i + 6, rest);
            assert(spec_parse_string_body(s, i) == Option::Some((seq![c] + rest, endp)));
            assert(seq![c] + rest =~= body);
        } else {
            assert(ec =~= seq![c]);
            assert(s[i] == sub[0]);
            assert(s[i] == c);
            lemma_parse_body_of_esc(s, i + 1, rest);
            assert(spec_parse_string_body(s, i) == Option::Some((seq![c] + rest, endp)));
            assert(seq![c] + rest =~= body);
        }
    }
}

/// The quoted-string parser inverts quoting.
proof fn lemma_parse_quoted_of_quoted(s: Seq<char>, i: int, v: Seq<char>)
    requires
        0 <= i,
        i + quoted(v).len() <= s.len(),
        s.subrange(i, i + quoted(v).len()) == quoted(v),
    ensures
        spec_parse_quoted(s, i) == Option::Some((v, i + quoted(v).len())),
{
    assert(quoted(v) =~= seq!['"'] + (esc(v) + seq!['"']));
    lemma_subrange_split(s, i, seq!['"'], esc(v) + seq!['"']);
    assert(s[i] == s.subrange(i, i + 1)[0]);
    assert(s[i] == '"');
    lemma_parse_body_of_esc(s, i + 1, v);
}

/// The member parser inverts one emitted member.
proof fn lemma_parse_field_of_emit(s: Seq<char>, i: int, key: Seq<char>, value: Seq<char>)
    requires
        0 <= i,
        i + emit_field(key, value).len() <= s.len(),
        s.subrange(i, i + emit_field(key, value).len()) == emit_field(key, value),
    ensures
        spec_parse_field(s, i, key) == Option::Some(
            (value, i + emit_field(key, value).len()),
        ),
{
    let qk = quoted(key);
    let qv = quoted(value);
    assert(emit_field(key, value) =~= qk + (seq![':'] + qv));
    lemma_subrange_split(s, i, qk, seq![':'] + qv);
    let j = i + qk.len() as int;
    assert(s.subrange(j, j + 1 + qv.len()) == seq![':'] + qv);
    lemma_subrange_split(s, j, seq![':'], qv);
    assert(s[i] == s.subrange(i, j)[0]);
    assert(s[i] == '"');
    lemma_skip_ws_at(s, i);
    lemma_parse_quoted_of_quoted(s, i, key);
    assert(s[j] == s.subrange(j, j + 1)[0]);
    assert(s[j] == ':');
    lemma_skip_ws_at(s, j);
    assert(spec_expect(s, j, ':') == Option::Some(j + 1));
    assert(s[j + 1] == s.subrange(j + 1, j + 1 + qv.len())[0]);
    assert(s[j + 1] == '"');
    lemma_skip_ws_at(s, j + 1);
    lemma_parse_quoted_of_quoted(s, j + 1, value);
}

/// The keys of a pair list, in order.
pub open spec fn keys_of(pairs: Seq<(Seq<char>, Seq<char>)>) -> Seq<Seq<char>> {
    pairs.map_values(|p: (Seq<char>, Seq<char>)| p.0)
}

/// The values of a pair list, in order.
pub open spec fn values_of(pairs: Seq<(Seq<char>, Seq<char>)>) -> Seq<Seq<char>> {
    pairs.map_values(|p: (Seq<char>, Seq<char>)| p.1)
}

/// The member-list parser inverts the emitted member list, key for key.
proof fn lemma_parse_fields_of_emit(s: Seq<char>, i: int, pairs: Seq<(Seq<char>, Seq<char>)>)
    requires
        0 <= i,
        pairs.len() >= 1,
        i + emit_fields(pairs).len() <= s.len(),
        s.subrange(i, i + emit_fields(pairs).len()) == emit_fields(pairs),
    ensures
        spec_parse_fields(s, i, keys_of(pairs)) == Option::Some(
            (values_of(pairs), i + emit_fields(pairs).len()),
        ),
    decreases pairs.len(),
{
    let ks = keys_of(pairs);
    assert(ks.len() == pairs.len());
    assert(ks[0] == pairs[0].0);
    if pairs.len() == 1 {
        assert(emit_fields(pairs) == emit_field(pairs[0].0, pairs[0].1));
        lemma_parse_field_of_emit(s, i, pairs[0].0, pairs[0].1);
        assert(values_of(pairs) =~= seq![pairs[0].1]);
    } else {
        lemma_emit_fields_front(pairs);
        let f0 = emit_field(pairs[0].0, pairs[0].1);
        let rest = emit_fields(pairs.drop_first());
        assert(emit_fields(pairs) =~= f0 + (seq![','] + rest));
        lemma_subrange_split(s, i, f0, seq![','] + rest);
        let j = i + f0.len() as int;
        lemma_subrange_split(s, j, seq![','], rest);
        lemma_parse_field_of_emit(s, i, pairs[0].0, pairs[0].1);
        assert(s[j] == s.subrange(j, j + 1)[0]);
        assert(s[j] == ',');
        lemma_skip_ws_at(s, j);
        assert(spec_expect(s, j, ',') == Option::Some(j + 1));
        lemma_parse_fields_of_emit(s, j + 1, pairs.drop_first());
        assert(keys_of(pairs.drop_first()) =~= ks.drop_first());
        assert(spec_parse_fields(s, i, ks) == Option::Some(
            (seq![pairs[0].1] + values_of(pairs.drop_first()), i + emit_fields(pairs).len()),
        ));
        assert(seq![pairs[0].1] + values_of(pairs.drop_first()) =~= values_of(pairs));
    }
}

/// Round trip: the wire form of any event parses back to exactly that
/// event, every field identical.
#[verifier::rlimit(60)]
pub proof fn lemma_json_round_trip(e: BadActorView)
    ensures
        spec_parse_bad_actor(spec_bad_actor_json(e)) == Option::Some(e),
{
    let pairs = spec_event_pairs(e);
    let mid = emit_fields(pairs);
    let s = spec_bad_actor_json(e);
    assert(s =~= seq!['{'] + (mid + seq!['}']));
    assert(s[0] == '{');
    lemma_skip_ws_at(s, 0);
    assert(spec_expect(s, 0, '{') == Option::Some(1int));
    assert(s.subrange(1, 1 + mid.len() as int + 1) =~= mid + seq!['}']);
    lemma_subrange_split(s, 1, mid, seq!['}']);
    lemma_parse_fields_of_emit(s, 1, pairs);
    assert(keys_of(pairs) =~= spec_event_keys());
    let j = 1 + mid.len() as int;
    assert(s[j] == s.subrange(j, j + 1)[0]);
    assert(s[j] == '}');
    lemma_skip_ws_at(s, j);
    assert(spec_expect(s, j, '}') == Option::Some(j + 1));
    assert(j + 1 == s.len());
    assert(spec_skip_ws(s, j + 1) == s.len());
    let vs = values_of(pairs);
    assert(vs[2] == e.event_timestamp);
    assert(vs[3] == e.event_uuid);
    assert(vs[4] == e.created_by_node_id);
    assert(vs[5] == e.collected_method);
    assert(vs[6] == e.transport_type);
    assert(vs[7] == e.source_ip);
    assert(vs[8] == e.destination_ip);
    assert(vs[9] == e.called_number);
    assert(vs[10] == e.method);
    assert(vs[11] == e.user_agent);
    assert(vs[12] == e.sip_message);
}

} // verus!
