//! What holds of values and of the texts that they are rendered as.
use crate::json::{
    alike, escaped, escapes, quoted, rendered, rendered_entries, rendered_items, Json,
    JsonView, ObjectView,
};
use vstd::prelude::*;
use vstd::string::*;

verus! {

/// How a character stands in the text of a string: the quotation mark and the backslash
/// behind a backslash, five control characters by a letter, the others by their number,
/// and everything else as it is.
pub open spec fn stands_for(piece: Seq<char>, c: char) -> bool {
    if c == '"' || c == '\\' {
        piece == seq!['\\', c]
    } else if (c as int) >= 0x20 {
        piece == seq![c]
    } else if c == '\u{8}' {
        piece == seq!['\\', 'b']
    } else if c == '\u{9}' {
        piece == seq!['\\', 't']
    } else if c == '\u{a}' {
        piece == seq!['\\', 'n']
    } else if c == '\u{c}' {
        piece == seq!['\\', 'f']
    } else if c == '\u{d}' {
        piece == seq!['\\', 'r']
    } else {
        piece.len() == 6 && piece.take(4) == seq!['\\', 'u', '0', '0'] && hex_value(piece[4]) * 16
            + hex_value(piece[5]) == c as int
    }
}

/// The value of a hexadecimal digit.
pub open spec fn hex_value(c: char) -> int {
    if '0' <= c <= '9' {
        c as int - '0' as int
    } else {
        c as int - 'a' as int + 10
    }
}

/// Null, truth values and numbers are rendered as they are written; a string stands between
/// quotation marks; the empty string, array and object have nothing inside.
pub proof fn simple_values_are_rendered(j: &Json, r: String)
    requires
        call_ensures(Json::render, (j,), r),
    ensures
        j@ == JsonView::Null ==> r@ == "null"@,
        j@ == JsonView::Bool(true) ==> r@ == "true"@,
        j@ == JsonView::Bool(false) ==> r@ == "false"@,
        j@ matches JsonView::Number(s) ==> r@ == s,
        j@ matches JsonView::Text(s) ==> r@.len() >= 2 && r@[0] == '"' && r@.last() == '"',
        j@ == JsonView::Text(Seq::empty()) ==> r@ == seq!['"', '"'],
        j@ == JsonView::Array(Seq::empty()) ==> r@ == seq!['[', ']'],
        j@ == JsonView::Object(Seq::empty()) ==> r@ == seq!['{', '}'],
{
    reveal_strlit("[");
    reveal_strlit("]");
    reveal_strlit("{");
    reveal_strlit("}");
    assert(quoted(Seq::empty()) =~= seq!['"', '"']);
    assert("["@ + Seq::<char>::empty() + "]"@ =~= seq!['[', ']']);
    assert("{"@ + Seq::<char>::empty() + "}"@ =~= seq!['{', '}']);
}

/// A string with one character more is rendered with what stands for that character before
/// the closing quotation mark, and with no other change.
pub proof fn strings_are_rendered(a: &Json, ra: String, b: &Json, rb: String, s: Seq<char>, c: char)
    requires
        call_ensures(Json::render, (a,), ra),
        call_ensures(Json::render, (b,), rb),
        a@ == JsonView::Text(s),
        b@ == JsonView::Text(s.push(c)),
    ensures
        exists|piece: Seq<char>| #[trigger]
            stands_for(piece, c) && rb@ == ra@.drop_last() + piece + seq!['"'],
{
    let piece = escaped(c);
    assert(s.push(c).drop_last() =~= s);
    assert(quoted(s).drop_last() =~= seq!['"'] + escapes(s));
    assert(seq!['"'] + (escapes(s) + piece) + seq!['"'] =~= seq!['"'] + escapes(s) + piece + seq![
        '"',
    ]);
    reveal_strlit("abcdef");
    if (c as int) < 0x20 && piece.len() == 6 {
        assert(piece.take(4) =~= seq!['\\', 'u', '0', '0']);
        let h = (c as int) / 16;
        let l = (c as int) % 16;
        hex_digit_has_its_value(h);
        hex_digit_has_its_value(l);
        assert(h * 16 + l == c as int);
    }
    assert(stands_for(piece, c));
}

proof fn hex_digit_has_its_value(d: int)
    requires
        0 <= d < 16,
    ensures
        hex_value(crate::json::hex_digit(d)) == d,
{
    reveal_strlit("abcdef");
    reveal_strlit("0123456789");
}

/// An array with one value more is rendered with that value before the closing bracket,
/// behind a comma where it is not the first.
pub proof fn arrays_are_rendered(
    a: &Json,
    ra: String,
    x: &Json,
    rx: String,
    b: &Json,
    rb: String,
    items: Seq<JsonView>,
)
    requires
        call_ensures(Json::render, (a,), ra),
        call_ensures(Json::render, (x,), rx),
        call_ensures(Json::render, (b,), rb),
        a@ == JsonView::Array(items),
        b@ == JsonView::Array(items.push(x@)),
    ensures
        items.len() == 0 ==> rb@ == seq!['['] + rx@ + seq![']'],
        items.len() > 0 ==> rb@ == ra@.drop_last() + seq![','] + rx@ + seq![']'],
{
    reveal_strlit("[");
    reveal_strlit("]");
    reveal_strlit(",");
    assert("["@ =~= seq!['['] && "]"@ =~= seq![']'] && ","@ =~= seq![',']);
    let more = items.push(x@);
    assert(more.drop_last() =~= items);
    assert(more.last() == x@);
    assert(rendered_items(more) == if items.len() == 0 {
        rendered(x@)
    } else {
        rendered_items(items) + ","@ + rendered(x@)
    });
    if items.len() > 0 {
        assert(ra@.drop_last() =~= seq!['['] + rendered_items(items));
        assert(rb@ =~= ra@.drop_last() + seq![','] + rx@ + seq![']']);
    }
}

/// An object with one entry more is rendered with its key as a string, a colon and its
/// value before the closing brace, behind a comma where it is not the first.
pub proof fn objects_are_rendered(
    a: &Json,
    ra: String,
    k: &Json,
    rk: String,
    x: &Json,
    rx: String,
    b: &Json,
    rb: String,
    entries: ObjectView,
    key: Seq<char>,
)
    requires
        call_ensures(Json::render, (a,), ra),
        call_ensures(Json::render, (k,), rk),
        call_ensures(Json::render, (x,), rx),
        call_ensures(Json::render, (b,), rb),
        a@ == JsonView::Object(entries),
        k@ == JsonView::Text(key),
        b@ == JsonView::Object(entries.push((key, x@))),
    ensures
        entries.len() == 0 ==> rb@ == seq!['{'] + rk@ + seq![':'] + rx@ + seq!['}'],
        entries.len() > 0 ==> rb@ == ra@.drop_last() + seq![','] + rk@ + seq![':'] + rx@ + seq![
            '}',
        ],
{
    reveal_strlit("{");
    reveal_strlit("}");
    reveal_strlit(",");
    reveal_strlit(":");
    assert("{"@ =~= seq!['{'] && "}"@ =~= seq!['}'] && ","@ =~= seq![','] && ":"@ =~= seq![':']);
    let more = entries.push((key, x@));
    assert(more.drop_last() =~= entries);
    assert(more.last() == (key, x@));
    if entries.len() == 0 {
        assert(more[0] == (key, x@));
        assert(rendered_entries(more) == rk@ + ":"@ + rx@);
        assert(rb@ =~= seq!['{'] + rk@ + seq![':'] + rx@ + seq!['}']);
    } else {
        assert(rendered_entries(more) == rendered_entries(entries) + ","@ + (rk@ + ":"@ + rx@));
        assert(ra@.drop_last() =~= seq!['{'] + rendered_entries(entries));
        assert(rb@ =~= ra@.drop_last() + seq![','] + rk@ + seq![':'] + rx@ + seq!['}']);
    }
}

/// Two values are the same only if they are of one kind: a string only where the texts are
/// the same, a truth value only where it is the same one, arrays only where they are of one
/// length and the same in each place.
pub proof fn values_that_differ_are_told_apart(a: &Json, b: &Json, r: bool)
    requires
        call_ensures(Json::is, (a, b), r),
    ensures
        a@ is Text && b@ is Text ==> (r <==> a@ == b@),
        a@ is Bool && b@ is Bool ==> (r <==> a@ == b@),
        a@ is Null && b@ is Null ==> r,
        a@ is Null != b@ is Null ==> !r,
        a@ is Bool != b@ is Bool ==> !r,
        a@ is Number != b@ is Number ==> !r,
        a@ is Text != b@ is Text ==> !r,
        a@ is Array != b@ is Array ==> !r,
        a@ is Object != b@ is Object ==> !r,
        a@ matches JsonView::Number(x) ==> (b@ matches JsonView::Number(y) ==> (x == y ==> r)),
        a@ matches JsonView::Array(x) ==> (b@ matches JsonView::Array(y) ==> (r <==> x.len()
            == y.len() && forall|i: int| 0 <= i < x.len() ==> alike(#[trigger] x[i], y[i]))),
{
}

} // verus!
