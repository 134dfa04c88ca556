use vstd::prelude::*;
use vstd::std_specs::iter::IteratorSpec;

verus! {

broadcast use vstd::std_specs::vec::axiom_vec_decreases_to_view, vstd::seq::axiom_seq_index_decreases, vstd::seq::axiom_seq_subrange_decreases, vstd::string::axiom_spec_iter, vstd::string::next_postcondition;

/// Mathematical model of a JSON document: the value tree with strings as
/// character sequences. Numbers are kept as their raw token text, so a
/// document is modelled without loss for values (such as relevance scores)
/// that the library never computes with.
pub enum JsonV {
    Null,
    Bool(bool),
    Num(Seq<char>),
    Str(Seq<char>),
    Arr(Seq<JsonV>),
    Obj(Seq<(Seq<char>, JsonV)>),
}

/// A JSON value. Objects keep their fields in insertion order; numbers are
/// kept as their raw decimal token.
pub enum Json {
    Null,
    Bool(bool),
    Num(String),
    Str(String),
    Arr(Vec<Json>),
    Obj(Vec<(String, Json)>),
}

impl Json {
    pub open spec fn deep(self) -> JsonV
        decreases self,
    {
        match self {
            Json::Null => JsonV::Null,
            Json::Bool(b) => JsonV::Bool(b),
            Json::Num(s) => JsonV::Num(s@),
            Json::Str(s) => JsonV::Str(s@),
            Json::Arr(items) => JsonV::Arr(deep_seq(items@)),
            Json::Obj(fields) => JsonV::Obj(deep_fields(fields@)),
        }
    }
}

pub open spec fn deep_seq(items: Seq<Json>) -> Seq<JsonV>
    decreases items,
{
    if items.len() == 0 {
        Seq::empty()
    } else {
        deep_seq(items.drop_last()).push(items.last().deep())
    }
}

pub open spec fn deep_fields(fields: Seq<(String, Json)>) -> Seq<(Seq<char>, JsonV)>
    decreases fields,
{
    if fields.len() == 0 {
        Seq::empty()
    } else {
        deep_fields(fields.drop_last()).push((fields.last().0@, fields.last().1.deep()))
    }
}

pub proof fn lemma_deep_seq(items: Seq<Json>)
    ensures
        deep_seq(items).len() == items.len(),
        forall|i: int| 0 <= i < items.len() ==> deep_seq(items)[i] == items[i].deep(),
    decreases items.len(),
{
    if items.len() > 0 {
        lemma_deep_seq(items.drop_last());
    }
}

pub proof fn lemma_deep_fields(fields: Seq<(String, Json)>)
    ensures
        deep_fields(fields).len() == fields.len(),
        forall|i: int|
            0 <= i < fields.len() ==> deep_fields(fields)[i] == (
                fields[i].0@,
                fields[i].1.deep(),
            ),
    decreases fields.len(),
{
    if fields.len() > 0 {
        lemma_deep_fields(fields.drop_last());
    }
}

/// The hexadecimal digit for a value below 16.
pub open spec fn hex_char(n: int) -> char {
    if n == 0 {
        '0'
    } else if n == 1 {
        '1'
    } else if n == 2 {
        '2'
    } else if n == 3 {
        '3'
    } else if n == 4 {
        '4'
    } else if n == 5 {
        '5'
    } else if n == 6 {
        '6'
    } else if n == 7 {
        '7'
    } else if n == 8 {
        '8'
    } else if n == 9 {
        '9'
    } else if n == 10 {
        'a'
    } else if n == 11 {
        'b'
    } else if n == 12 {
        'c'
    } else if n == 13 {
        'd'
    } else if n == 14 {
        'e'
    } else {
        'f'
    }
}

/// How one character appears inside a JSON string literal: quotes and
/// backslashes are escaped, control characters take the `\u00XX` form, and
/// every other character stands for itself.
pub open spec fn esc_char(c: char) -> Seq<char> {
    if c == '"' {
        seq!['\\', '"']
    } else if c == '\\' {
        seq!['\\', '\\']
    } else if (c as u32) < 0x20 {
        seq!['\\', 'u', '0', '0', hex_char((c as u32) as int / 16), hex_char((c as u32) as int % 16)]
    } else {
        seq![c]
    }
}

/// The body of a JSON string literal holding the characters of `s`.
pub open spec fn esc(s: Seq<char>) -> Seq<char>
    decreases s.len(),
{
    if s.len() == 0 {
        Seq::empty()
    } else {
        esc(s.drop_last()) + esc_char(s.last())
    }
}

/// The decimal digit for a value below 10.
pub open spec fn dec_char(n: int) -> char {
    if n == 0 {
        '0'
    } else if n == 1 {
        '1'
    } else if n == 2 {
        '2'
    } else if n == 3 {
        '3'
    } else if n == 4 {
        '4'
    } else if n == 5 {
        '5'
    } else if n == 6 {
        '6'
    } else if n == 7 {
        '7'
    } else if n == 8 {
        '8'
    } else {
        '9'
    }
}

/// The decimal rendering of a natural number, without leading zeros.
pub open spec fn dec_of(n: nat) -> Seq<char>
    decreases n,
{
    if n < 10 {
        seq![dec_char(n as int)]
    } else {
        dec_of(n / 10).push(dec_char((n % 10) as int))
    }
}

/// The text of a JSON document: fields and items in order, separated by
/// commas, with no whitespace.
pub open spec fn text_of(v: JsonV) -> Seq<char>
    decreases v,
{
    match v {
        JsonV::Null => seq!['n', 'u', 'l', 'l'],
        JsonV::Bool(b) => if b {
            seq!['t', 'r', 'u', 'e']
        } else {
            seq!['f', 'a', 'l', 's', 'e']
        },
        JsonV::Num(tok) => tok,
        JsonV::Str(s) => seq!['"'] + esc(s) + seq!['"'],
        JsonV::Arr(items) => seq!['['] + items_text(items) + seq![']'],
        JsonV::Obj(fields) => seq!['{'] + fields_text(fields) + seq!['}'],
    }
}

pub open spec fn items_text(items: Seq<JsonV>) -> Seq<char>
    decreases items,
{
    if items.len() == 0 {
        Seq::empty()
    } else if items.len() == 1 {
        text_of(items[0])
    } else {
        items_text(items.drop_last()) + seq![','] + text_of(items.last())
    }
}

pub open spec fn field_text(f: (Seq<char>, JsonV)) -> Seq<char>
    decreases f,
{
    seq!['"'] + esc(f.0) + seq!['"', ':'] + text_of(f.1)
}

pub open spec fn fields_text(fields: Seq<(Seq<char>, JsonV)>) -> Seq<char>
    decreases fields,
{
    if fields.len() == 0 {
        Seq::empty()
    } else if fields.len() == 1 {
        field_text(fields[0])
    } else {
        fields_text(fields.drop_last()) + seq![','] + field_text(fields.last())
    }
}

/// Relies on std's `String::push`: appends the one character at the end.
#[verifier::external_body]
fn push_char(out: &mut String, c: char)
    ensures
        final(out)@ == old(out)@.push(c),
{
    out.push(c);
}

fn push_hex_char(out: &mut String, n: u32)
    requires
        n < 16,
    ensures
        final(out)@ == old(out)@.push(hex_char(n as int)),
{
    if n == 0 {
        push_char(out, '0');
    } else if n == 1 {
        push_char(out, '1');
    } else if n == 2 {
        push_char(out, '2');
    } else if n == 3 {
        push_char(out, '3');
    } else if n == 4 {
        push_char(out, '4');
    } else if n == 5 {
        push_char(out, '5');
    } else if n == 6 {
        push_char(out, '6');
    } else if n == 7 {
        push_char(out, '7');
    } else if n == 8 {
        push_char(out, '8');
    } else if n == 9 {
        push_char(out, '9');
    } else if n == 10 {
        push_char(out, 'a');
    } else if n == 11 {
        push_char(out, 'b');
    } else if n == 12 {
        push_char(out, 'c');
    } else if n == 13 {
        push_char(out, 'd');
    } else if n == 14 {
        push_char(out, 'e');
    } else {
        push_char(out, 'f');
    }
}

fn push_esc_char(out: &mut String, c: char)
    ensures
        final(out)@ == old(out)@ + esc_char(c),
{
    if c == '"' {
        push_char(out, '\\');
        push_char(out, '"');
    } else if c == '\\' {
        push_char(out, '\\');
        push_char(out, '\\');
    } else if (c as u32) < 0x20 {
        push_char(out, '\\');
        push_char(out, 'u');
        push_char(out, '0');
        push_char(out, '0');
        push_hex_char(out, (c as u32) / 16);
        push_hex_char(out, (c as u32) % 16);
    } else {
        push_char(out, c);
    }
    proof {
        assert(out@ =~= old(out)@ + esc_char(c));
    }
}

/// Appends the body of the JSON string literal holding the characters of `s`.
fn append_escaped(out: &mut String, s: &str)
    ensures
        final(out)@ == old(out)@ + esc(s@),
{
    let ghost orig = old(out)@;
    let mut it = s.chars();
    let ghost mut done: Seq<char> = Seq::empty();
    proof {
        assert(done + it.remaining() =~= s@);
        assert(out@ =~= orig + esc(done));
    }
    loop
        invariant
            done + it.remaining() == s@,
            out@ == orig + esc(done),
            it.obeys_prophetic_iter_laws(),
        ensures
            done == s@,
            out@ == orig + esc(done),
        decreases s@.len() - done.len(),
    {
        let c_opt = it.next();
        match c_opt {
            Some(c) => {
                let ghost prev = done;
                proof {
                    done = done.push(c);
                }
                push_esc_char(out, c);
                proof {
                    assert(done.drop_last() =~= prev);
                    assert(done.last() == c);
                    assert(esc(done) == esc(prev) + esc_char(c));
                    assert(out@ =~= orig + esc(done));
                }
            },
            None => {
                proof {
                    assert(done =~= s@);
                }
                break ;
            },
        }
    }
}

fn push_dec_char(out: &mut String, n: u64)
    requires
        n < 10,
    ensures
        final(out)@ == old(out)@.push(dec_char(n as int)),
{
    if n == 0 {
        push_char(out, '0');
    } else if n == 1 {
        push_char(out, '1');
    } else if n == 2 {
        push_char(out, '2');
    } else if n == 3 {
        push_char(out, '3');
    } else if n == 4 {
        push_char(out, '4');
    } else if n == 5 {
        push_char(out, '5');
    } else if n == 6 {
        push_char(out, '6');
    } else if n == 7 {
        push_char(out, '7');
    } else if n == 8 {
        push_char(out, '8');
    } else {
        push_char(out, '9');
    }
}

/// Renders a natural number in decimal, without leading zeros.
pub fn dec_string(n: u64) -> (r: String)
    ensures
        r@ == dec_of(n as nat),
{
    let mut digits: Vec<u64> = Vec::new();
    let mut m: u64 = n;
    proof {
        assert(dec_of(n as nat) =~= dec_of(n as nat) + digit_chars(Seq::<u64>::empty()));
    }
    while m >= 10
        invariant
            forall|i: int| 0 <= i < digits@.len() ==> #[trigger] digits@[i] < 10,
            dec_of(n as nat) == dec_of(m as nat) + digit_chars(digits@),
        decreases m,
    {
        let d: u64 = m % 10;
        let m2: u64 = m / 10;
        proof {
            assert(m2 < m && m2 >= 1) by (nonlinear_arith)
                requires
                    m >= 10,
                    m2 == m / 10,
            ;
            assert(dec_of(m as nat) == dec_of(m2 as nat).push(dec_char(d as int)));
            lemma_digit_chars_cons(d, digits@);
            assert(dec_of(m2 as nat) + (seq![dec_char(d as int)] + digit_chars(digits@)) =~= (
            dec_of(m2 as nat).push(dec_char(d as int))) + digit_chars(digits@));
        }
        let ghost prev = digits@;
        digits.insert(0, d);
        proof {
            assert(digits@ =~= seq![d] + prev);
        }
        m = m2;
    }
    let mut out = String::new();
    push_dec_char(&mut out, m);
    proof {
        assert(out@ =~= seq![dec_char(m as int)]);
        assert(out@ =~= dec_of(m as nat));
    }
    let mut i: usize = 0;
    while i < digits.len()
        invariant
            0 <= i <= digits@.len(),
            forall|j: int| 0 <= j < digits@.len() ==> #[trigger] digits@[j] < 10,
            out@ == dec_of(m as nat) + digit_chars(digits@.take(i as int)),
            dec_of(n as nat) == dec_of(m as nat) + digit_chars(digits@),
        decreases digits@.len() - i,
    {
        push_dec_char(&mut out, digits[i]);
        proof {
            lemma_digit_chars_push(digits@.take(i as int), digits@[i as int]);
            assert(digits@.take(i as int).push(digits@[i as int]) =~= digits@.take(
                i as int + 1,
            ));
        }
        i += 1;
    }
    proof {
        assert(digits@.take(digits@.len() as int) =~= digits@);
    }
    out
}

/// The characters standing for a sequence of digit values.
pub open spec fn digit_chars(ds: Seq<u64>) -> Seq<char>
    decreases ds.len(),
{
    if ds.len() == 0 {
        Seq::empty()
    } else {
        digit_chars(ds.drop_last()).push(dec_char(ds.last() as int))
    }
}

proof fn lemma_digit_chars_push(ds: Seq<u64>, d: u64)
    ensures
        digit_chars(ds.push(d)) == digit_chars(ds).push(dec_char(d as int)),
{
    assert(ds.push(d).drop_last() =~= ds);
    assert(ds.push(d).last() == d);
}

/// Renders a JSON value as its document text.
#[verifier::loop_isolation(false)]
pub fn json_text(v: &Json) -> (r: String)
    ensures
        r@ == text_of(v@),
    decreases *v,
{
    match v {
        Json::Null => {
            let mut out = String::new();
            push_char(&mut out, 'n');
            push_char(&mut out, 'u');
            push_char(&mut out, 'l');
            push_char(&mut out, 'l');
            proof {
                assert(out@ =~= text_of(v@));
            }
            out
        },
        Json::Bool(b) => {
            let mut out = String::new();
            if *b {
                push_char(&mut out, 't');
                push_char(&mut out, 'r');
                push_char(&mut out, 'u');
                push_char(&mut out, 'e');
            } else {
                push_char(&mut out, 'f');
                push_char(&mut out, 'a');
                push_char(&mut out, 'l');
                push_char(&mut out, 's');
                push_char(&mut out, 'e');
            }
            proof {
                assert(out@ =~= text_of(v@));
            }
            out
        },
        Json::Num(tok) => tok.clone(),
        Json::Str(s) => {
            let mut out = String::new();
            push_char(&mut out, '"');
            append_escaped(&mut out, s.as_str());
            push_char(&mut out, '"');
            proof {
                assert(out@ =~= text_of(v@));
            }
            out
        },
        Json::Arr(items) => {
            let mut out = String::new();
            push_char(&mut out, '[');
            let ghost dsq = deep_seq(items@);
            proof {
                lemma_deep_seq(items@);
                assert(dsq.take(0) =~= Seq::<JsonV>::empty());
                assert(out@ =~= seq!['['] + items_text(dsq.take(0)));
            }
            let mut i: usize = 0;
            while i < items.len()
                invariant
                    0 <= i <= items@.len(),
                    dsq == deep_seq(items@),
                    dsq.len() == items@.len(),
                    forall|k: int| 0 <= k < items@.len() ==> dsq[k] == items@[k].deep(),
                    out@ == seq!['['] + items_text(dsq.take(i as int)),
                decreases items@.len() - i,
            {
                if i > 0 {
                    push_char(&mut out, ',');
                }
                proof {
                    assert(decreases_to!(*v => *items));
                    assert(decreases_to!(*items => items@));
                    assert(decreases_to!(items@ => items@[i as int]));
                }
                let piece = json_text(&items[i]);
                out.append(piece.as_str());
                proof {
                    assert(dsq.take(i as int + 1).drop_last() =~= dsq.take(i as int));
                    assert(dsq.take(i as int + 1).last() == dsq[i as int]);
                    assert(out@ =~= seq!['['] + items_text(dsq.take(i as int + 1)));
                }
                i += 1;
            }
            push_char(&mut out, ']');
            proof {
                assert(dsq.take(items@.len() as int) =~= dsq);
                assert(out@ =~= text_of(v@));
            }
            out
        },
        Json::Obj(fields) => {
            let mut out = String::new();
            push_char(&mut out, '{');
            let ghost dfs = deep_fields(fields@);
            proof {
                lemma_deep_fields(fields@);
                assert(dfs.take(0) =~= Seq::<(Seq<char>, JsonV)>::empty());
                assert(out@ =~= seq!['{'] + fields_text(dfs.take(0)));
            }
            let mut i: usize = 0;
            while i < fields.len()
                invariant
                    0 <= i <= fields@.len(),
                    dfs == deep_fields(fields@),
                    dfs.len() == fields@.len(),
                    forall|k: int|
                        0 <= k < fields@.len() ==> dfs[k] == (
                            fields@[k].0@,
                            fields@[k].1.deep(),
                        ),
                    out@ == seq!['{'] + fields_text(dfs.take(i as int)),
                decreases fields@.len() - i,
            {
                if i > 0 {
                    push_char(&mut out, ',');
                }
                push_char(&mut out, '"');
                append_escaped(&mut out, fields[i].0.as_str());
                push_char(&mut out, '"');
                push_char(&mut out, ':');
                proof {
                    assert(decreases_to!(*v => *fields));
                    assert(decreases_to!(*fields => fields@));
                    assert(decreases_to!(fields@ => fields@[i as int]));
                    assert(decreases_to!(fields@[i as int] => fields@[i as int].1));
                }
                let piece = json_text(&fields[i].1);
                out.append(piece.as_str());
                proof {
                    let t1 = dfs.take(i as int + 1);
                    assert(t1.drop_last() =~= dfs.take(i as int));
                    assert(t1.last() == dfs[i as int]);
                    assert(dfs[i as int] == (fields@[i as int].0@, fields@[i as int].1.deep()));
                    assert(field_text(dfs[i as int]) == seq!['"'] + esc(fields@[i as int].0@)
                        + seq!['"', ':'] + text_of(fields@[i as int].1.deep()));
                    if i == 0 {
                        assert(fields_text(t1) == field_text(dfs[0]));
                    } else {
                        assert(fields_text(t1) == fields_text(dfs.take(i as int)) + seq![',']
                            + field_text(dfs[i as int]));
                    }
                    assert(out@ =~= seq!['{'] + fields_text(t1));
                }
                i += 1;
            }
            push_char(&mut out, '}');
            proof {
                assert(dfs.take(fields@.len() as int) =~= dfs);
                assert(out@ =~= text_of(v@));
            }
            out
        },
    }
}

/// The value under the first occurrence of a key in an object's fields.
pub open spec fn lookup(fields: Seq<(Seq<char>, JsonV)>, k: Seq<char>) -> Option<JsonV>
    decreases fields.len(),
{
    if fields.len() == 0 {
        None
    } else if fields[0].0 == k {
        Some(fields[0].1)
    } else {
        lookup(fields.drop_first(), k)
    }
}

/// A required string field: present and a string, or nothing.
pub open spec fn str_field(fields: Seq<(Seq<char>, JsonV)>, k: Seq<char>) -> Option<Seq<char>> {
    match lookup(fields, k) {
        Some(JsonV::Str(s)) => Some(s),
        _ => None,
    }
}

/// A required number field, as its raw token.
pub open spec fn num_field(fields: Seq<(Seq<char>, JsonV)>, k: Seq<char>) -> Option<Seq<char>> {
    match lookup(fields, k) {
        Some(JsonV::Num(t)) => Some(t),
        _ => None,
    }
}

/// A required array field.
pub open spec fn arr_field(fields: Seq<(Seq<char>, JsonV)>, k: Seq<char>) -> Option<Seq<JsonV>> {
    match lookup(fields, k) {
        Some(JsonV::Arr(items)) => Some(items),
        _ => None,
    }
}

/// An optional string field: an absent or null key reads as unset.
pub open spec fn opt_str_field(fields: Seq<(Seq<char>, JsonV)>, k: Seq<char>) -> Option<
    Option<Seq<char>>,
> {
    match lookup(fields, k) {
        None => Some(None),
        Some(JsonV::Null) => Some(None),
        Some(JsonV::Str(s)) => Some(Some(s)),
        _ => None,
    }
}

/// The strings of an array all of whose items are strings.
pub open spec fn str_items(items: Seq<JsonV>) -> Option<Seq<Seq<char>>>
    decreases items.len(),
{
    if items.len() == 0 {
        Some(Seq::empty())
    } else {
        match items[0] {
            JsonV::Str(s) => match str_items(items.drop_first()) {
                Some(rest) => Some(seq![s] + rest),
                None => None,
            },
            _ => None,
        }
    }
}

/// The tokens of an array all of whose items are numbers.
pub open spec fn num_items(items: Seq<JsonV>) -> Option<Seq<Seq<char>>>
    decreases items.len(),
{
    if items.len() == 0 {
        Some(Seq::empty())
    } else {
        match items[0] {
            JsonV::Num(t) => match num_items(items.drop_first()) {
                Some(rest) => Some(seq![t] + rest),
                None => None,
            },
            _ => None,
        }
    }
}

/// An optional array-of-strings field: an absent or null key reads as unset.
pub open spec fn opt_str_arr_field(fields: Seq<(Seq<char>, JsonV)>, k: Seq<char>) -> Option<
    Option<Seq<Seq<char>>>,
> {
    match lookup(fields, k) {
        None => Some(None),
        Some(JsonV::Null) => Some(None),
        Some(JsonV::Arr(items)) => match str_items(items) {
            Some(ss) => Some(Some(ss)),
            None => None,
        },
        _ => None,
    }
}

/// An optional array-of-numbers field: an absent or null key reads as unset.
pub open spec fn opt_num_arr_field(fields: Seq<(Seq<char>, JsonV)>, k: Seq<char>) -> Option<
    Option<Seq<Seq<char>>>,
> {
    match lookup(fields, k) {
        None => Some(None),
        Some(JsonV::Null) => Some(None),
        Some(JsonV::Arr(items)) => match num_items(items) {
            Some(ts) => Some(Some(ts)),
            None => None,
        },
        _ => None,
    }
}

/// Finds the first field with the given key.
#[verifier::loop_isolation(false)]
pub fn obj_get<'a>(fields: &'a Vec<(String, Json)>, key: &String) -> (r: Option<&'a Json>)
    ensures
        match r {
            Some(j) => lookup(deep_fields(fields@), key@) == Some(j@),
            None => lookup(deep_fields(fields@), key@) is None,
        },
{
    proof {
        lemma_deep_fields(fields@);
    }
    let ghost dfs = deep_fields(fields@);
    proof {
        assert(dfs.skip(0) =~= dfs);
    }
    let mut i: usize = 0;
    while i < fields.len()
        invariant
            0 <= i <= fields@.len(),
            lookup(dfs, key@) == lookup(dfs.skip(i as int), key@),
        decreases fields@.len() - i,
    {
        proof {
            assert(dfs.skip(i as int).len() == fields@.len() - i);
            assert(dfs.skip(i as int)[0] == dfs[i as int]);
            assert(dfs.skip(i as int).drop_first() =~= dfs.skip(i as int + 1));
        }
        if fields[i].0 == *key {
            return Some(&fields[i].1);
        }
        i += 1;
    }
    proof {
        assert(dfs.skip(fields@.len() as int).len() == 0);
    }
    None
}

/// The characters of a string value, or empty characters for any other value.
pub open spec fn str_of(v: JsonV) -> Seq<char> {
    match v {
        JsonV::Str(s) => s,
        _ => Seq::empty(),
    }
}

/// The token of a number value, or empty characters for any other value.
pub open spec fn num_of(v: JsonV) -> Seq<char> {
    match v {
        JsonV::Num(t) => t,
        _ => Seq::empty(),
    }
}

pub proof fn lemma_str_items_some(items: Seq<JsonV>)
    requires
        forall|k: int| 0 <= k < items.len() ==> items[k] is Str,
    ensures
        str_items(items) == Some(Seq::new(items.len(), |k: int| str_of(items[k]))),
    decreases items.len(),
{
    if items.len() == 0 {
        assert(Seq::new(0, |k: int| str_of(items[k])) =~= Seq::<Seq<char>>::empty());
    } else {
        lemma_str_items_some(items.drop_first());
        assert(seq![str_of(items[0])] + Seq::new(
            items.drop_first().len(),
            |k: int| str_of(items.drop_first()[k]),
        ) =~= Seq::new(items.len(), |k: int| str_of(items[k])));
    }
}

pub proof fn lemma_str_items_none(items: Seq<JsonV>, k: int)
    requires
        0 <= k < items.len(),
        !(items[k] is Str),
    ensures
        str_items(items) is None,
    decreases items.len(),
{
    if k > 0 {
        lemma_str_items_none(items.drop_first(), k - 1);
    }
}

pub proof fn lemma_num_items_some(items: Seq<JsonV>)
    requires
        forall|k: int| 0 <= k < items.len() ==> items[k] is Num,
    ensures
        num_items(items) == Some(Seq::new(items.len(), |k: int| num_of(items[k]))),
    decreases items.len(),
{
    if items.len() == 0 {
        assert(Seq::new(0, |k: int| num_of(items[k])) =~= Seq::<Seq<char>>::empty());
    } else {
        lemma_num_items_some(items.drop_first());
        assert(seq![num_of(items[0])] + Seq::new(
            items.drop_first().len(),
            |k: int| num_of(items.drop_first()[k]),
        ) =~= Seq::new(items.len(), |k: int| num_of(items[k])));
    }
}

pub proof fn lemma_num_items_none(items: Seq<JsonV>, k: int)
    requires
        0 <= k < items.len(),
        !(items[k] is Num),
    ensures
        num_items(items) is None,
    decreases items.len(),
{
    if k > 0 {
        lemma_num_items_none(items.drop_first(), k - 1);
    }
}

/// Reads a required string field.
pub fn get_str(fields: &Vec<(String, Json)>, key: &String) -> (r: Option<String>)
    ensures
        match r {
            Some(s) => str_field(deep_fields(fields@), key@) == Some(s@),
            None => str_field(deep_fields(fields@), key@) is None,
        },
{
    match obj_get(fields, key) {
        Some(Json::Str(s)) => Some(s.clone()),
        _ => None,
    }
}

/// Reads a required number field, as its raw token.
pub fn get_num(fields: &Vec<(String, Json)>, key: &String) -> (r: Option<String>)
    ensures
        match r {
            Some(t) => num_field(deep_fields(fields@), key@) == Some(t@),
            None => num_field(deep_fields(fields@), key@) is None,
        },
{
    match obj_get(fields, key) {
        Some(Json::Num(t)) => Some(t.clone()),
        _ => None,
    }
}

/// Reads an optional string field; an absent or null key reads as unset.
pub fn get_opt_str(fields: &Vec<(String, Json)>, key: &String) -> (r: Option<Option<String>>)
    ensures
        r is None ==> opt_str_field(deep_fields(fields@), key@) is None,
        r matches Some(o) ==> opt_str_field(deep_fields(fields@), key@) == Some(o.deep_view()),
{
    match obj_get(fields, key) {
        None => Some(None),
        Some(Json::Null) => Some(None),
        Some(Json::Str(s)) => Some(Some(s.clone())),
        Some(_) => None,
    }
}

/// Turns an array whose items are all strings into those strings.
#[verifier::loop_isolation(false)]
fn str_vec(items: &Vec<Json>) -> (r: Option<Vec<String>>)
    ensures
        match r {
            Some(v) => str_items(deep_seq(items@)) == Some(v.deep_view()),
            None => str_items(deep_seq(items@)) is None,
        },
{
    proof {
        lemma_deep_seq(items@);
    }
    let ghost dsq = deep_seq(items@);
    let mut out: Vec<String> = Vec::new();
    let mut i: usize = 0;
    while i < items.len()
        invariant
            0 <= i <= items@.len(),
            out@.len() == i,
            forall|k: int| 0 <= k < i ==> dsq[k] is Str,
            forall|k: int| 0 <= k < i ==> #[trigger] out@[k]@ == str_of(dsq[k]),
        decreases items@.len() - i,
    {
        match &items[i] {
            Json::Str(s) => {
                out.push(s.clone());
            },
            _ => {
                proof {
                    lemma_str_items_none(dsq, i as int);
                }
                return None;
            },
        }
        i += 1;
    }
    proof {
        lemma_str_items_some(dsq);
        assert(out.deep_view() =~= Seq::new(dsq.len(), |k: int| str_of(dsq[k])));
    }
    Some(out)
}

/// Turns an array whose items are all numbers into their raw tokens.
#[verifier::loop_isolation(false)]
fn num_vec(items: &Vec<Json>) -> (r: Option<Vec<String>>)
    ensures
        match r {
            Some(v) => num_items(deep_seq(items@)) == Some(v.deep_view()),
            None => num_items(deep_seq(items@)) is None,
        },
{
    proof {
        lemma_deep_seq(items@);
    }
    let ghost dsq = deep_seq(items@);
    let mut out: Vec<String> = Vec::new();
    let mut i: usize = 0;
    while i < items.len()
        invariant
            0 <= i <= items@.len(),
            out@.len() == i,
            forall|k: int| 0 <= k < i ==> dsq[k] is Num,
            forall|k: int| 0 <= k < i ==> #[trigger] out@[k]@ == num_of(dsq[k]),
        decreases items@.len() - i,
    {
        match &items[i] {
            Json::Num(t) => {
                out.push(t.clone());
            },
            _ => {
                proof {
                    lemma_num_items_none(dsq, i as int);
                }
                return None;
            },
        }
        i += 1;
    }
    proof {
        lemma_num_items_some(dsq);
        assert(out.deep_view() =~= Seq::new(dsq.len(), |k: int| num_of(dsq[k])));
    }
    Some(out)
}

/// Reads an optional array-of-strings field; an absent or null key reads as unset.
pub fn get_opt_str_arr(fields: &Vec<(String, Json)>, key: &String) -> (r: Option<
    Option<Vec<String>>,
>)
    ensures
        r is None ==> opt_str_arr_field(deep_fields(fields@), key@) is None,
        r matches Some(o) ==> opt_str_arr_field(deep_fields(fields@), key@) == Some(o.deep_view()),
{
    match obj_get(fields, key) {
        None => Some(None),
        Some(Json::Null) => Some(None),
        Some(Json::Arr(items)) => match str_vec(items) {
            Some(v) => Some(Some(v)),
            None => None,
        },
        Some(_) => None,
    }
}

/// Reads an optional array-of-numbers field; an absent or null key reads as unset.
pub fn get_opt_num_arr(fields: &Vec<(String, Json)>, key: &String) -> (r: Option<
    Option<Vec<String>>,
>)
    ensures
        r is None ==> opt_num_arr_field(deep_fields(fields@), key@) is None,
        r matches Some(o) ==> opt_num_arr_field(deep_fields(fields@), key@) == Some(o.deep_view()),
{
    match obj_get(fields, key) {
        None => Some(None),
        Some(Json::Null) => Some(None),
        Some(Json::Arr(items)) => match num_vec(items) {
            Some(v) => Some(Some(v)),
            None => None,
        },
        Some(_) => None,
    }
}

/// One object field when an optional value is set, and no field at all when
/// it is not: unset options leave no trace on the wire, not even a null.
pub open spec fn opt_field(k: Seq<char>, v: Option<JsonV>) -> Seq<(Seq<char>, JsonV)> {
    match v {
        Some(x) => seq![(k, x)],
        None => Seq::empty(),
    }
}

pub open spec fn opt_bool_json(o: Option<bool>) -> Option<JsonV> {
    match o {
        Some(b) => Some(JsonV::Bool(b)),
        None => None,
    }
}

pub open spec fn opt_u32_json(o: Option<u32>) -> Option<JsonV> {
    match o {
        Some(n) => Some(JsonV::Num(dec_of(n as nat))),
        None => None,
    }
}

pub open spec fn opt_str_json(o: Option<Seq<char>>) -> Option<JsonV> {
    match o {
        Some(s) => Some(JsonV::Str(s)),
        None => None,
    }
}

/// An array of strings as a JSON value.
pub open spec fn strs_json(ss: Seq<Seq<char>>) -> JsonV {
    JsonV::Arr(Seq::new(ss.len(), |i: int| JsonV::Str(ss[i])))
}

pub open spec fn opt_strs_json(o: Option<Seq<Seq<char>>>) -> Option<JsonV> {
    match o {
        Some(ss) => Some(strs_json(ss)),
        None => None,
    }
}

/// An array of number tokens as a JSON value.
pub open spec fn nums_json(ts: Seq<Seq<char>>) -> JsonV {
    JsonV::Arr(Seq::new(ts.len(), |i: int| JsonV::Num(ts[i])))
}

pub open spec fn opt_nums_json(o: Option<Seq<Seq<char>>>) -> Option<JsonV> {
    match o {
        Some(ts) => Some(nums_json(ts)),
        None => None,
    }
}

/// The keys of an object's fields, in order.
pub open spec fn obj_keys(fields: Seq<(Seq<char>, JsonV)>) -> Seq<Seq<char>> {
    Seq::new(fields.len(), |i: int| fields[i].0)
}

/// One key when a condition holds, and none when it does not.
pub open spec fn opt_key(k: Seq<char>, present: bool) -> Seq<Seq<char>> {
    if present {
        seq![k]
    } else {
        Seq::empty()
    }
}

/// The keys of joined field lists are the joined key lists.
pub proof fn lemma_obj_keys_append(a: Seq<(Seq<char>, JsonV)>, b: Seq<(Seq<char>, JsonV)>)
    ensures
        obj_keys(a + b) == obj_keys(a) + obj_keys(b),
{
    assert(obj_keys(a + b) =~= obj_keys(a) + obj_keys(b));
}

/// An optional field contributes its key exactly when it is set.
pub proof fn lemma_obj_keys_opt(k: Seq<char>, v: Option<JsonV>)
    ensures
        obj_keys(opt_field(k, v)) == opt_key(k, v is Some),
{
    match v {
        Some(x) => {
            assert(obj_keys(opt_field(k, v)) =~= seq![k]);
        },
        None => {
            assert(obj_keys(opt_field(k, v)) =~= Seq::<Seq<char>>::empty());
        },
    }
}

/// A set optional field extends the built fields by exactly one entry.
pub proof fn lemma_seg_push(gfs: Seq<(Seq<char>, JsonV)>, k: Seq<char>, x: JsonV)
    ensures
        gfs + opt_field(k, Some(x)) == gfs.push((k, x)),
{
    assert(gfs + seq![(k, x)] =~= gfs.push((k, x)));
}

/// An unset optional field leaves the built fields unchanged.
pub proof fn lemma_seg_skip(gfs: Seq<(Seq<char>, JsonV)>, k: Seq<char>)
    ensures
        gfs + opt_field(k, None::<JsonV>) == gfs,
{
    assert(gfs + Seq::<(Seq<char>, JsonV)>::empty() =~= gfs);
}

/// Appends one field to an object under construction.
pub fn push_field(fields: &mut Vec<(String, Json)>, key: &str, value: Json)
    ensures
        deep_fields(final(fields)@) == deep_fields(old(fields)@).push((key@, value@)),
{
    let ghost prev = fields@;
    fields.push((String::from_str(key), value));
    proof {
        assert(fields@.drop_last() =~= prev);
    }
}

/// Appends an optional boolean field: one entry when set, none when not.
pub fn push_opt_bool_field(fields: &mut Vec<(String, Json)>, key: &str, v: &Option<bool>)
    ensures
        deep_fields(final(fields)@) == deep_fields(old(fields)@) + opt_field(
            key@,
            opt_bool_json(*v),
        ),
{
    let ghost gfs = deep_fields(fields@);
    if let Some(b) = v {
        push_field(fields, key, Json::Bool(*b));
        proof {
            lemma_seg_push(gfs, key@, JsonV::Bool(*b));
        }
    } else {
        proof {
            lemma_seg_skip(gfs, key@);
        }
    }
}

/// Appends an optional numeric field, rendered in decimal.
pub fn push_opt_u32_field(fields: &mut Vec<(String, Json)>, key: &str, v: &Option<u32>)
    ensures
        deep_fields(final(fields)@) == deep_fields(old(fields)@) + opt_field(
            key@,
            opt_u32_json(*v),
        ),
{
    let ghost gfs = deep_fields(fields@);
    if let Some(n) = v {
        push_field(fields, key, Json::Num(dec_string(*n as u64)));
        proof {
            lemma_seg_push(gfs, key@, JsonV::Num(dec_of(*n as nat)));
        }
    } else {
        proof {
            lemma_seg_skip(gfs, key@);
        }
    }
}

/// Appends an optional string field.
pub fn push_opt_str_field(fields: &mut Vec<(String, Json)>, key: &str, v: &Option<String>)
    ensures
        deep_fields(final(fields)@) == deep_fields(old(fields)@) + opt_field(
            key@,
            opt_str_json(v.deep_view()),
        ),
{
    let ghost gfs = deep_fields(fields@);
    if let Some(s) = v {
        push_field(fields, key, Json::Str(s.clone()));
        proof {
            lemma_seg_push(gfs, key@, JsonV::Str(s@));
        }
    } else {
        proof {
            lemma_seg_skip(gfs, key@);
        }
    }
}

/// Appends an optional array-of-strings field.
pub fn push_opt_strs_field(fields: &mut Vec<(String, Json)>, key: &str, v: &Option<Vec<String>>)
    ensures
        deep_fields(final(fields)@) == deep_fields(old(fields)@) + opt_field(
            key@,
            opt_strs_json(v.deep_view()),
        ),
{
    let ghost gfs = deep_fields(fields@);
    if let Some(ss) = v {
        push_field(fields, key, strs_to_json(ss));
        proof {
            lemma_seg_push(gfs, key@, strs_json(ss.deep_view()));
        }
    } else {
        proof {
            lemma_seg_skip(gfs, key@);
        }
    }
}

/// Builds the JSON array holding the given strings.
#[verifier::loop_isolation(false)]
pub fn strs_to_json(v: &Vec<String>) -> (r: Json)
    ensures
        r@ == strs_json(v.deep_view()),
{
    let mut items: Vec<Json> = Vec::new();
    let mut i: usize = 0;
    while i < v.len()
        invariant
            0 <= i <= v@.len(),
            items@.len() == i,
            deep_seq(items@) == Seq::new(i as nat, |k: int| JsonV::Str(v@[k]@)),
        decreases v@.len() - i,
    {
        let ghost prev = items@;
        let s2 = v[i].clone();
        items.push(Json::Str(s2));
        proof {
            assert(items@.drop_last() =~= prev);
            assert(items@.last().deep() == JsonV::Str(v@[i as int]@));
            assert(deep_seq(items@) == deep_seq(prev).push(JsonV::Str(v@[i as int]@)));
            assert(deep_seq(items@) =~= Seq::new((i + 1) as nat, |k: int| JsonV::Str(v@[k]@)));
        }
        i += 1;
    }
    let r = Json::Arr(items);
    proof {
        assert(Seq::new(v@.len(), |k: int| JsonV::Str(v@[k]@)) =~= Seq::new(
            v.deep_view().len(),
            |k: int| JsonV::Str(v.deep_view()[k]),
        ));
    }
    r
}

/// Decodes every item of an array with the given reading, or nothing if any
/// item refuses it.
pub open spec fn dec_items<T>(items: Seq<JsonV>, f: spec_fn(JsonV) -> Option<T>) -> Option<Seq<T>>
    decreases items.len(),
{
    if items.len() == 0 {
        Some(Seq::empty())
    } else {
        match f(items[0]) {
            Some(x) => match dec_items(items.drop_first(), f) {
                Some(rest) => Some(seq![x] + rest),
                None => None,
            },
            None => None,
        }
    }
}

pub proof fn lemma_dec_items_some<T>(items: Seq<JsonV>, f: spec_fn(JsonV) -> Option<T>)
    requires
        forall|k: int| 0 <= k < items.len() ==> f(items[k]) is Some,
    ensures
        dec_items(items, f) == Some(Seq::new(items.len(), |k: int| f(items[k])->0)),
    decreases items.len(),
{
    if items.len() == 0 {
        assert(Seq::new(0, |k: int| f(items[k])->0) =~= Seq::<T>::empty());
    } else {
        lemma_dec_items_some(items.drop_first(), f);
        assert(seq![f(items[0])->0] + Seq::new(
            items.drop_first().len(),
            |k: int| f(items.drop_first()[k])->0,
        ) =~= Seq::new(items.len(), |k: int| f(items[k])->0));
    }
}

pub proof fn lemma_dec_items_none<T>(items: Seq<JsonV>, f: spec_fn(JsonV) -> Option<T>, k: int)
    requires
        0 <= k < items.len(),
        f(items[k]) is None,
    ensures
        dec_items(items, f) is None,
    decreases items.len(),
{
    if k > 0 {
        lemma_dec_items_none(items.drop_first(), f, k - 1);
    }
}

/// Looking a key up in joined field lists reads the left list first.
pub proof fn lemma_lookup_append(a: Seq<(Seq<char>, JsonV)>, b: Seq<(Seq<char>, JsonV)>)
    ensures
        forall|k: Seq<char>| #[trigger]
            lookup(a + b, k) == (if lookup(a, k) is Some {
                lookup(a, k)
            } else {
                lookup(b, k)
            }),
    decreases a.len(),
{
    if a.len() == 0 {
        assert(a + b =~= b);
    } else {
        lemma_lookup_append(a.drop_first(), b);
        assert forall|k: Seq<char>| #[trigger]
            lookup(a + b, k) == (if lookup(a, k) is Some {
                lookup(a, k)
            } else {
                lookup(b, k)
            }) by {
            assert((a + b).len() > 0);
            assert((a + b)[0] == a[0]);
            assert((a + b).drop_first() =~= a.drop_first() + b);
            assert(lookup(a.drop_first() + b, k) == (if lookup(a.drop_first(), k) is Some {
                lookup(a.drop_first(), k)
            } else {
                lookup(b, k)
            }));
        }
    }
}

#[verifier::external_type_specification]
#[verifier::external_body]
pub struct ExValue(serde_json::Value);

/// What `serde_json` parses a document's text into, in this library's model;
/// nothing but the text decides it.
pub uninterp spec fn json_of(s: Seq<char>) -> Option<JsonV>;

/// Converts a parsed `serde_json` tree into the library's JSON type, one arm
/// per variant; numbers keep their raw token.
#[verifier::external_body]
fn value_to_json(v: serde_json::Value) -> Json {
    match v {
        serde_json::Value::Null => Json::Null,
        serde_json::Value::Bool(b) => Json::Bool(b),
        serde_json::Value::Number(n) => Json::Num(n.to_string()),
        serde_json::Value::String(s) => Json::Str(s),
        serde_json::Value::Array(a) => Json::Arr(a.into_iter().map(value_to_json).collect()),
        serde_json::Value::Object(m) => Json::Obj(
            m.into_iter().map(|(k, x)| (k, value_to_json(x))).collect(),
        ),
    }
}

/// Relies on `serde_json::from_str`: whether a document's text parses, and to
/// what tree, depends on the text alone.
#[verifier::external_body]
pub fn parse_json(s: &str) -> (r: Option<Json>)
    ensures
        r is Some <==> json_of(s@) is Some,
        r matches Some(j) ==> json_of(s@) == Some(j@),
{
    match serde_json::from_str::<serde_json::Value>(s) {
        Ok(v) => Some(value_to_json(v)),
        Err(_) => None,
    }
}

proof fn lemma_digit_chars_cons(d: u64, ds: Seq<u64>)
    ensures
        digit_chars(seq![d] + ds) == seq![dec_char(d as int)] + digit_chars(ds),
    decreases ds.len(),
{
    if ds.len() == 0 {
        assert(seq![d] + ds =~= seq![d]);
        reveal_with_fuel(digit_chars, 2);
        assert(seq![d].drop_last() =~= Seq::<u64>::empty());
        assert(seq![d].last() == d);
        assert(digit_chars(Seq::<u64>::empty()) == Seq::<char>::empty());
        assert(digit_chars(seq![d]) =~= seq![dec_char(d as int)] + digit_chars(ds));
    } else {
        lemma_digit_chars_cons(d, ds.drop_last());
        assert((seq![d] + ds).drop_last() =~= seq![d] + ds.drop_last());
        assert((seq![d] + ds).last() == ds.last());
        assert(seq![dec_char(d as int)] + digit_chars(ds.drop_last()).push(
            dec_char(ds.last() as int),
        ) =~= (seq![dec_char(d as int)] + digit_chars(ds.drop_last())).push(
            dec_char(ds.last() as int),
        ));
    }
}

impl View for Json {
    type V = JsonV;

    open spec fn view(&self) -> JsonV {
        self.deep()
    }
}

} // verus!
