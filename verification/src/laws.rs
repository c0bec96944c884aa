//! Properties of the library as a whole, proved over the specifications that
//! the functions' contracts use.
use vstd::prelude::*;
use vstd::utf8::{
    decode_utf8, decode_utf8_encode_utf8, encode_scalar, encode_utf8, encode_utf8_decode_utf8,
    encode_utf8_valid_utf8, valid_utf8,
};

use crate::models::{
    opt_view, users_view, HttpMethod, UsersByIdV1GetResponse, UsersV1Get200ResponseInner,
    UsersV1GetResponse,
};
use crate::outside::{hex_digit_value, is_hex_digit, percent_decoded};
use crate::outside::{is_user_detail_path, user_id_segment, users_path};
use crate::response::{plan, users_by_id_v1_get_plan, users_v1_get_plan, BodyView};
use crate::routing::{
    undecodable_prefix, decoded_user_id, dispatch_action, endpoint_name, operation_id, operation_id_of_path,
    route_action, route_selection, RouteActionView, RouteSelection,
};

verus! {

/// The operation id reported for a request names exactly the endpoint that
/// routing sends it to, and there is none when routing answers by itself.
pub proof fn operation_id_names_route(method: HttpMethod, users: bool, user_id: bool)
    ensures
        operation_id(method, users, user_id) == match route_selection(method, users, user_id) {
            RouteSelection::Operation(endpoint) => Some(endpoint_name(endpoint)),
            _ => None,
        },
{
}

/// Only `GET` requests reach an operation.
pub proof fn only_get_reaches_operations(method: HttpMethod, users: bool, user_id: bool)
    ensures
        route_selection(method, users, user_id) is Operation ==> method == HttpMethod::Get,
{
}

/// A path that matches neither pattern is not found, whatever the method.
pub proof fn unknown_path_not_found(method: HttpMethod)
    ensures
        route_selection(method, false, false) == RouteSelection::NotFound,
{
}

/// A served path with any method but `GET` is answered "method not allowed".
pub proof fn other_methods_not_allowed(method: HttpMethod, users: bool, user_id: bool)
    requires
        users || user_id,
        method != HttpMethod::Get,
    ensures
        route_selection(method, users, user_id) == RouteSelection::MethodNotAllowed,
{
}

/// What routing does agrees with the operation id reported for the same
/// request: the list operation is run exactly when the id is `UsersV1Get`;
/// the detail operation is run, or its path parameter refused with status
/// 400, exactly when the id is `UsersByIdV1Get`; and the service answers 404
/// or 405 by itself exactly when there is no id.
pub proof fn route_agrees_with_operation_id(method: HttpMethod, path: Seq<char>)
    ensures
        route_action(method, path) is CallUsersV1Get <==> operation_id_of_path(method, path)
            == Some("UsersV1Get"@),
        (route_action(method, path) is CallUsersByIdV1Get || (route_action(method, path) matches RouteActionView::Reply(p)
            && p.status == 400)) <==> operation_id_of_path(method, path) == Some("UsersByIdV1Get"@),
        (route_action(method, path) matches RouteActionView::Reply(p) && (p.status == 404
            || p.status == 405)) <==> operation_id_of_path(method, path) is None,
{
    assert("UsersV1Get"@ != "UsersByIdV1Get"@) by {
        reveal_strlit("UsersV1Get");
        reveal_strlit("UsersByIdV1Get");
        assert("UsersV1Get"@.len() != "UsersByIdV1Get"@.len());
    }
}

/// Routing never stops on a fault, and the only answers it gives by itself
/// are 400, 404 and 405, each without a content type or span id.
pub proof fn route_never_faults(method: HttpMethod, path: Seq<char>)
    ensures
        !(route_action(method, path) is Fault),
        route_action(method, path) matches RouteActionView::Reply(p) ==> (p.status == 400
            || p.status == 404 || p.status == 405) && p.content_type is None && !p.x_span_id,
{
}

/// The routing table: `GET /v1/users` runs the list operation; `GET` on
/// `/v1/users/{user_id}` runs the detail operation with the decoded user id,
/// or answers 400 when the id does not decode; any other method on these
/// paths is answered 405, and every other path 404, all with an empty body.
pub proof fn routing_table(method: HttpMethod, path: Seq<char>)
    ensures
        method == HttpMethod::Get && path == users_path() ==> route_action(method, path)
            == RouteActionView::CallUsersV1Get,
        method == HttpMethod::Get && is_user_detail_path(path) ==> route_action(method, path)
            == match decoded_user_id(user_id_segment(path)) {
            Ok(id) => RouteActionView::CallUsersByIdV1Get(id),
            Err(message) => RouteActionView::Reply(plan(400, None, false, BodyView::Text(message))),
        },
        method != HttpMethod::Get && (path == users_path() || is_user_detail_path(path))
            ==> route_action(method, path) == RouteActionView::Reply(
            plan(405, None, false, BodyView::Empty),
        ),
        !(path == users_path()) && !is_user_detail_path(path) ==> route_action(method, path)
            == RouteActionView::Reply(plan(404, None, false, BodyView::Empty)),
{
    assert(!(users_path() == users_path() && is_user_detail_path(users_path()))) by {
        reveal_strlit("/v1/users");
        reveal_strlit("/v1/users/");
    }
}

/// Responses to an operation's outcome echo the request's span id; the
/// answers that routing gives by itself do not.
pub proof fn span_id_only_on_operation_responses<E>(
    by_id: Result<UsersByIdV1GetResponse, E>,
    list: Result<UsersV1GetResponse, E>,
    method: HttpMethod,
    matches: Option<(bool, bool)>,
    captured: Option<Seq<char>>,
)
    ensures
        users_by_id_v1_get_plan(by_id).x_span_id,
        users_v1_get_plan(list).x_span_id,
        dispatch_action(method, matches, captured) matches RouteActionView::Reply(p) ==> !p.x_span_id,
{
}

/// Status 200 is answered exactly for a successful outcome, and every other
/// outcome of an operation is answered with 404 or 500.
pub proof fn success_status_only_for_success<E>(
    by_id: Result<UsersByIdV1GetResponse, E>,
    list: Result<UsersV1GetResponse, E>,
)
    ensures
        users_by_id_v1_get_plan(by_id).status == 200 <==> by_id matches Ok(
            UsersByIdV1GetResponse::Status200(_),
        ),
        users_by_id_v1_get_plan(by_id).status == 404 <==> by_id matches Ok(
            UsersByIdV1GetResponse::Status404(_),
        ),
        users_v1_get_plan(list).status == 200 <==> list matches Ok(
            UsersV1GetResponse::Status200(_),
        ),
        users_v1_get_plan(list).status != 200 ==> users_v1_get_plan(list).status == 500,
{
}

proof fn ascii_scalar_encoding(c: char)
    requires
        (c as u32) < 0x80,
    ensures
        encode_scalar(c as u32) == seq![c as u32 as u8],
{
    let v = c as u32;
    assert((v & 0x7F) as u8 == v as u8) by (bit_vector)
        requires
            v < 0x80,
    ;
}

proof fn non_ascii_scalar_bytes(c: char)
    requires
        (c as u32) >= 0x80,
    ensures
        forall|i: int| 0 <= i < encode_scalar(c as u32).len() ==> #[trigger] encode_scalar(c as u32)[i] >= 0x80,
{
    let v = c as u32;
    assert(0xC0u8 | ((v >> 6) & 0x1F) as u8 >= 0x80) by (bit_vector);
    assert(0xE0u8 | ((v >> 12) & 0x0F) as u8 >= 0x80) by (bit_vector);
    assert(0xF0u8 | ((v >> 18) & 0x7) as u8 >= 0x80) by (bit_vector);
    assert(0x80u8 | (v & 0x3F) as u8 >= 0x80) by (bit_vector);
    assert(0x80u8 | ((v >> 6) & 0x3F) as u8 >= 0x80) by (bit_vector);
    assert(0x80u8 | ((v >> 12) & 0x3F) as u8 >= 0x80) by (bit_vector);
}

/// The UTF-8 encoding of characters holds a `%` byte only where the
/// characters hold `%`.
proof fn encoding_has_no_percent(chars: Seq<char>)
    requires
        !chars.contains('%'),
    ensures
        !encode_utf8(chars).contains(0x25u8),
    decreases chars.len(),
{
    if chars.len() > 0 {
        let c = chars[0];
        let rest = chars.drop_first();
        assert(!rest.contains('%')) by {
            if rest.contains('%') {
                let k = choose|k: int| 0 <= k < rest.len() && rest[k] == '%';
                assert(chars[k + 1] == '%');
            }
        }
        encoding_has_no_percent(rest);
        let head = encode_scalar(c as u32);
        let whole = encode_utf8(chars);
        assert(whole == head + encode_utf8(rest));
        if (c as u32) < 0x80 {
            ascii_scalar_encoding(c);
            assert(c != '%');
            assert(c as u32 != 0x25) by {
                if c as u32 == 0x25 {
                    vstd::utf8::char_u32_cast(c, 0x25u32);
                    vstd::utf8::char_u32_cast('%', 0x25u32);
                }
            }
        } else {
            non_ascii_scalar_bytes(c);
        }
        assert forall|i: int| 0 <= i < whole.len() implies whole[i] != 0x25u8 by {
            if i >= head.len() {
                assert(whole[i] == encode_utf8(rest)[i - head.len()]);
            }
        }
    }
}

/// Percent-decoding leaves bytes without `%` as they are.
proof fn decoding_without_percent(bytes: Seq<u8>)
    requires
        !bytes.contains(0x25u8),
    ensures
        percent_decoded(bytes) == bytes,
    decreases bytes.len(),
{
    if bytes.len() > 0 {
        let rest = bytes.skip(1);
        assert(!rest.contains(0x25u8)) by {
            if rest.contains(0x25u8) {
                let k = choose|k: int| 0 <= k < rest.len() && rest[k] == 0x25u8;
                assert(bytes[k + 1] == 0x25u8);
            }
        }
        assert(bytes[0] != 0x25u8);
        decoding_without_percent(rest);
        assert(bytes =~= seq![bytes[0]] + rest);
    }
}

/// A path parameter without `%` is taken as it is.
pub proof fn plain_user_id_unchanged(raw: Seq<char>)
    requires
        !raw.contains('%'),
    ensures
        decoded_user_id(raw) == Ok::<Seq<char>, Seq<char>>(raw),
{
    encoding_has_no_percent(raw);
    decoding_without_percent(encode_utf8(raw));
    encode_utf8_valid_utf8(raw);
    encode_utf8_decode_utf8(raw);
}


/// A hexadecimal digit in upper case, for `v` below 16.
pub open spec fn upper_hex_digit(v: u8) -> char {
    if v == 0 { '0' } else if v == 1 { '1' } else if v == 2 { '2' } else if v == 3 { '3' }
    else if v == 4 { '4' } else if v == 5 { '5' } else if v == 6 { '6' } else if v == 7 { '7' }
    else if v == 8 { '8' } else if v == 9 { '9' } else if v == 10 { 'A' } else if v == 11 { 'B' }
    else if v == 12 { 'C' } else if v == 13 { 'D' } else if v == 14 { 'E' } else { 'F' }
}

/// The byte of an upper-case hexadecimal digit, for `v` below 16.
pub open spec fn upper_hex_byte(v: u8) -> u8 {
    if v < 10 { (0x30 + v) as u8 } else { (0x41 + v - 10) as u8 }
}

/// Bytes written with every byte percent-escaped: `%` and two upper-case
/// hexadecimal digits each.
pub open spec fn percent_escaped(bytes: Seq<u8>) -> Seq<char>
    decreases bytes.len(),
{
    if bytes.len() == 0 {
        Seq::empty()
    } else {
        seq!['%', upper_hex_digit(bytes[0] / 16), upper_hex_digit(bytes[0] % 16)]
            + percent_escaped(bytes.skip(1))
    }
}

/// The bytes of `percent_escaped`.
pub open spec fn percent_escaped_bytes(bytes: Seq<u8>) -> Seq<u8>
    decreases bytes.len(),
{
    if bytes.len() == 0 {
        Seq::empty()
    } else {
        seq![0x25u8, upper_hex_byte(bytes[0] / 16), upper_hex_byte(bytes[0] % 16)]
            + percent_escaped_bytes(bytes.skip(1))
    }
}

proof fn encoding_of_concat(x: Seq<char>, y: Seq<char>)
    ensures
        encode_utf8(x + y) == encode_utf8(x) + encode_utf8(y),
    decreases x.len(),
{
    if x.len() == 0 {
        assert(x + y =~= y);
    } else {
        assert((x + y).drop_first() =~= x.drop_first() + y);
        encoding_of_concat(x.drop_first(), y);
        assert(encode_utf8(x + y) =~= encode_utf8(x) + encode_utf8(y));
    }
}

proof fn upper_hex_digit_encoding(v: u8)
    requires
        0 <= v < 16,
    ensures
        (upper_hex_digit(v) as u32) < 0x80,
        upper_hex_digit(v) as u32 as u8 == upper_hex_byte(v),
{
}

proof fn encoding_of_escape(b: u8)
    ensures
        encode_utf8(seq!['%', upper_hex_digit(b / 16), upper_hex_digit(b % 16)]) == seq![
            0x25u8,
            upper_hex_byte(b / 16),
            upper_hex_byte(b % 16),
        ],
{
    let hi = upper_hex_digit(b / 16);
    let lo = upper_hex_digit(b % 16);
    upper_hex_digit_encoding(b / 16);
    upper_hex_digit_encoding(b % 16);
    ascii_scalar_encoding('%');
    ascii_scalar_encoding(hi);
    ascii_scalar_encoding(lo);
    let s = seq!['%', hi, lo];
    assert(s.drop_first() =~= seq![hi, lo]);
    assert(seq![hi, lo].drop_first() =~= seq![lo]);
    assert(seq![lo].drop_first() =~= Seq::<char>::empty());
    assert('%' as u32 == 0x25);
    assert(encode_utf8(Seq::<char>::empty()) =~= Seq::<u8>::empty());
    let e3 = encode_utf8(seq![lo]);
    assert(e3 =~= seq![upper_hex_byte(b % 16)]);
    let e2 = encode_utf8(seq![hi, lo]);
    assert(e2 == encode_scalar(hi as u32) + e3);
    assert(e2 =~= seq![upper_hex_byte(b / 16), upper_hex_byte(b % 16)]);
    assert(encode_utf8(s) == encode_scalar('%' as u32) + e2);
    assert(encode_utf8(s) =~= seq![0x25u8, upper_hex_byte(b / 16), upper_hex_byte(b % 16)]);
}

proof fn encoding_of_escaped(bytes: Seq<u8>)
    ensures
        encode_utf8(percent_escaped(bytes)) == percent_escaped_bytes(bytes),
    decreases bytes.len(),
{
    if bytes.len() > 0 {
        let b = bytes[0];
        let head = seq!['%', upper_hex_digit(b / 16), upper_hex_digit(b % 16)];
        encoding_of_concat(head, percent_escaped(bytes.skip(1)));
        encoding_of_escape(b);
        encoding_of_escaped(bytes.skip(1));
    }
}

proof fn upper_hex_byte_decodes(v: u8)
    requires
        0 <= v < 16,
    ensures
        is_hex_digit(upper_hex_byte(v)),
        hex_digit_value(upper_hex_byte(v)) == v,
{
}

proof fn decoding_escaped_bytes(bytes: Seq<u8>)
    ensures
        percent_decoded(percent_escaped_bytes(bytes)) == bytes,
    decreases bytes.len(),
{
    if bytes.len() > 0 {
        let b = bytes[0];
        let escaped = percent_escaped_bytes(bytes);
        let rest = percent_escaped_bytes(bytes.skip(1));
        upper_hex_byte_decodes(b / 16);
        upper_hex_byte_decodes(b % 16);
        assert(escaped[0] == 0x25u8);
        assert(escaped[1] == upper_hex_byte(b / 16));
        assert(escaped[2] == upper_hex_byte(b % 16));
        assert(escaped.skip(3) =~= rest);
        assert((b / 16) * 16 + b % 16 == b);
        decoding_escaped_bytes(bytes.skip(1));
        assert(bytes =~= seq![b] + bytes.skip(1));
    }
}

/// A user id whose every byte is percent-escaped in the path is read back
/// as that user id.
pub proof fn escaped_user_id_decodes(id: Seq<char>)
    ensures
        decoded_user_id(percent_escaped(encode_utf8(id))) == Ok::<Seq<char>, Seq<char>>(id),
{
    encoding_of_escaped(encode_utf8(id));
    decoding_escaped_bytes(encode_utf8(id));
    encode_utf8_valid_utf8(id);
    encode_utf8_decode_utf8(id);
}

/// Percent-decoding leaves a run of bytes without `%` in front as it is.
proof fn decoding_after_plain_prefix(a: Seq<u8>, b: Seq<u8>)
    requires
        !a.contains(0x25u8),
    ensures
        percent_decoded(a + b) == a + percent_decoded(b),
    decreases a.len(),
{
    if a.len() == 0 {
        assert(a + b =~= b);
        assert(a + percent_decoded(b) =~= percent_decoded(b));
    } else {
        let rest = a.skip(1);
        assert(!rest.contains(0x25u8)) by {
            if rest.contains(0x25u8) {
                let k = choose|k: int| 0 <= k < rest.len() && rest[k] == 0x25u8;
                assert(a[k + 1] == 0x25u8);
            }
        }
        assert((a + b)[0] == a[0]);
        assert(a[0] != 0x25u8);
        assert((a + b).skip(1) =~= rest + b);
        decoding_after_plain_prefix(rest, b);
        assert(a + percent_decoded(b) =~= seq![a[0]] + (rest + percent_decoded(b)));
    }
}

/// The user id read from any raw segment is its percent-decoding: when it is
/// read, its UTF-8 bytes are exactly the percent-decoded bytes of the
/// segment; it is read whenever those bytes are well-formed UTF-8; and it is
/// refused, with the explanation followed by the segment, only when they are
/// not.
pub proof fn user_id_is_percent_decoding(raw: Seq<char>)
    ensures
        decoded_user_id(raw) matches Ok(id) ==> encode_utf8(id) == percent_decoded(encode_utf8(raw)),
        decoded_user_id(raw) is Ok <==> valid_utf8(percent_decoded(encode_utf8(raw))),
        decoded_user_id(raw) matches Err(message) ==> message == undecodable_prefix() + raw,
{
    let bytes = percent_decoded(encode_utf8(raw));
    if valid_utf8(bytes) {
        decode_utf8_encode_utf8(bytes);
    }
}

/// A segment made of plain text `p` (no `%`) followed by the user id `q`
/// with every byte percent-escaped is read as `p` followed by `q`: escapes
/// anywhere in the segment, of any byte, decode to the characters they
/// encode.
pub proof fn mixed_user_id_decodes(p: Seq<char>, q: Seq<char>)
    requires
        !p.contains('%'),
    ensures
        decoded_user_id(p + percent_escaped(encode_utf8(q))) == Ok::<Seq<char>, Seq<char>>(p + q),
{
    let escaped = percent_escaped(encode_utf8(q));
    encoding_of_concat(p, escaped);
    encoding_of_escaped(encode_utf8(q));
    encoding_has_no_percent(p);
    decoding_after_plain_prefix(encode_utf8(p), percent_escaped_bytes(encode_utf8(q)));
    decoding_escaped_bytes(encode_utf8(q));
    encoding_of_concat(p, q);
    encode_utf8_valid_utf8(p + q);
    encode_utf8_decode_utf8(p + q);
}

/// The 200 answer of the user-detail operation carries exactly the record
/// the operation returned: the same id and the same name.
pub proof fn detail_success_carries_record<E>(user: UsersV1Get200ResponseInner)
    ensures
        users_by_id_v1_get_plan(Ok::<UsersByIdV1GetResponse, E>(UsersByIdV1GetResponse::Status200(user))).body
            == BodyView::User(user@),
        users_by_id_v1_get_plan(Ok::<UsersByIdV1GetResponse, E>(UsersByIdV1GetResponse::Status200(user))).body
            matches BodyView::User(v) && v.id == opt_view(user.id) && v.name == opt_view(user.name),
{
}

/// The 200 answer of the user-list operation carries exactly the records
/// the operation returned, in their order: as many, and each with its id
/// and its name.
pub proof fn list_success_carries_records<E>(users: Vec<UsersV1Get200ResponseInner>)
    ensures
        users_v1_get_plan(Ok::<UsersV1GetResponse, E>(UsersV1GetResponse::Status200(users))).body
            == BodyView::Users(users_view(users@)),
        users_v1_get_plan(Ok::<UsersV1GetResponse, E>(UsersV1GetResponse::Status200(users))).body
            matches BodyView::Users(vs) && vs.len() == users@.len() && (forall|i: int|
            0 <= i < vs.len() ==> (#[trigger] vs[i]).id == opt_view(users@[i].id) && vs[i].name
                == opt_view(users@[i].name)),
{
}

} // verus!
