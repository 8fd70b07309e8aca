//! Header lists as raw bytes: cookie coalescing, lookup by name, and the test
//! for a WebSocket upgrade request.

use vstd::prelude::*;

verus! {

/// One header as it came off the wire: name and value, byte for byte.
#[derive(Clone, Debug, PartialEq, Eq)]
pub struct Header {
    pub name: Vec<u8>,
    pub value: Vec<u8>,
}

/// The mathematical value of a header.
pub struct HeaderView {
    pub name: Seq<u8>,
    pub value: Seq<u8>,
}

impl View for Header {
    type V = HeaderView;

    open spec fn view(&self) -> HeaderView {
        HeaderView { name: self.name@, value: self.value@ }
    }
}

/// The mathematical value of a header list.
pub open spec fn headers_view(headers: Seq<Header>) -> Seq<HeaderView> {
    headers.map_values(|h: Header| h@)
}

/// ASCII lower case of one byte.
pub open spec fn lower(b: u8) -> u8 {
    if 0x41 <= b <= 0x5a {
        (b + 0x20) as u8
    } else {
        b
    }
}

/// ASCII lower case of a byte string.
pub open spec fn lower_bytes(s: Seq<u8>) -> Seq<u8> {
    s.map_values(|b: u8| lower(b))
}

/// Equality of two byte strings up to ASCII case.
pub open spec fn same_ignoring_case(a: Seq<u8>, b: Seq<u8>) -> bool {
    lower_bytes(a) == lower_bytes(b)
}

/// The bytes of `cookie`.
pub open spec fn cookie_name() -> Seq<u8> {
    seq![0x63u8, 0x6f, 0x6f, 0x6b, 0x69, 0x65]
}

/// The bytes of `"; "`, which separate coalesced cookies.
pub open spec fn cookie_separator() -> Seq<u8> {
    seq![0x3bu8, 0x20]
}

/// Whether a header name is `cookie`, in any ASCII case.
pub open spec fn is_cookie_name(name: Seq<u8>) -> bool {
    same_ignoring_case(name, cookie_name())
}

/// The headers that are not cookies, in the order in which they came.
pub open spec fn other_headers(headers: Seq<HeaderView>) -> Seq<HeaderView>
    decreases headers.len(),
{
    if headers.len() == 0 {
        Seq::empty()
    } else if is_cookie_name(headers.last().name) {
        other_headers(headers.drop_last())
    } else {
        other_headers(headers.drop_last()).push(headers.last())
    }
}

/// The values of the cookie headers, in the order in which they came.
pub open spec fn cookie_values(headers: Seq<HeaderView>) -> Seq<Seq<u8>>
    decreases headers.len(),
{
    if headers.len() == 0 {
        Seq::empty()
    } else if is_cookie_name(headers.last().name) {
        cookie_values(headers.drop_last()).push(headers.last().value)
    } else {
        cookie_values(headers.drop_last())
    }
}

/// The values joined by `"; "`.
pub open spec fn joined(values: Seq<Seq<u8>>) -> Seq<u8>
    decreases values.len(),
{
    if values.len() == 0 {
        Seq::empty()
    } else if values.len() == 1 {
        values[0]
    } else {
        joined(values.drop_last()) + cookie_separator() + values.last()
    }
}

/// The host-visible header list: every header that is not a cookie, in its
/// place among the others, then one `cookie` header that holds all
/// cookie values joined by `"; "`, if there was any cookie header.
pub open spec fn coalesced(headers: Seq<HeaderView>) -> Seq<HeaderView> {
    if cookie_values(headers).len() == 0 {
        other_headers(headers)
    } else {
        other_headers(headers).push(
            HeaderView { name: cookie_name(), value: joined(cookie_values(headers)) },
        )
    }
}

/// ASCII lower case of one byte.
pub fn to_lower(b: u8) -> (l: u8)
    ensures
        l == lower(b),
{
    if 0x41 <= b && b <= 0x5a {
        b + 0x20
    } else {
        b
    }
}

/// Compares two byte strings up to ASCII case.
pub fn eq_ignore_case(a: &[u8], b: &[u8]) -> (same: bool)
    ensures
        same == same_ignoring_case(a@, b@),
{
    if a.len() != b.len() {
        assert(lower_bytes(a@).len() != lower_bytes(b@).len());
        return false;
    }
    let mut i: usize = 0;
    while i < a.len()
        invariant
            a@.len() == b@.len(),
            0 <= i <= a@.len(),
            forall|j: int| 0 <= j < i ==> lower(a@[j]) == lower(b@[j]),
        decreases a@.len() - i,
    {
        if to_lower(a[i]) != to_lower(b[i]) {
            assert(lower_bytes(a@)[i as int] != lower_bytes(b@)[i as int]);
            return false;
        }
        i += 1;
    }
    assert(lower_bytes(a@) =~= lower_bytes(b@));
    true
}

/// Whether a header name is `cookie`, in any ASCII case.
pub fn is_cookie(name: &[u8]) -> (yes: bool)
    ensures
        yes == is_cookie_name(name@),
{
    let cookie: [u8; 6] = [0x63, 0x6f, 0x6f, 0x6b, 0x69, 0x65];
    assert(cookie@ =~= cookie_name());
    eq_ignore_case(name, cookie.as_slice())
}

/// A copy of a byte string.
pub fn copy_bytes(bytes: &[u8]) -> (copy: Vec<u8>)
    ensures
        copy@ == bytes@,
{
    let mut copy: Vec<u8> = Vec::new();
    copy.extend_from_slice(bytes);
    assert(copy@ =~= bytes@);
    copy
}

/// Coalesces the cookie headers of a request: every `cookie` header leaves the
/// list, and one `cookie` header with their values, joined by `"; "` in the
/// order in which they came, is put at its end. Other headers keep their order and
/// their bytes.
pub fn coalesce_cookies(headers: &Vec<Header>) -> (visible: Vec<Header>)
    ensures
        headers_view(visible@) == coalesced(headers_view(headers@)),
{
    let ghost all = headers_view(headers@);
    let mut visible: Vec<Header> = Vec::new();
    let mut cookies: Vec<u8> = Vec::new();
    let mut seen: bool = false;
    let mut i: usize = 0;
    while i < headers.len()
        invariant
            all == headers_view(headers@),
            0 <= i <= headers@.len(),
            headers_view(visible@) == other_headers(all.subrange(0, i as int)),
            cookies@ == joined(cookie_values(all.subrange(0, i as int))),
            seen == (cookie_values(all.subrange(0, i as int)).len() > 0),
        decreases headers@.len() - i,
    {
        let header = &headers[i];
        proof {
            let next = all.subrange(0, i + 1);
            assert(next.drop_last() =~= all.subrange(0, i as int));
            assert(next.last() == header@);
        }
        if is_cookie(header.name.as_slice()) {
            let ghost before = cookie_values(all.subrange(0, i as int));
            if seen {
                let separator: [u8; 2] = [0x3b, 0x20];
                assert(separator@ =~= cookie_separator());
                cookies.extend_from_slice(separator.as_slice());
            }
            cookies.extend_from_slice(header.value.as_slice());
            proof {
                let after = before.push(header@.value);
                assert(after.drop_last() =~= before);
                assert(cookies@ =~= joined(after));
            }
            seen = true;
        } else {
            let ghost before = visible@;
            visible.push(Header { name: copy_bytes(header.name.as_slice()), value: copy_bytes(header.value.as_slice()) });
            assert(headers_view(visible@) =~= headers_view(before).push(header@));
        }
        i += 1;
    }
    assert(all.subrange(0, i as int) =~= all);
    if seen {
        let ghost before = visible@;
        let name: [u8; 6] = [0x63, 0x6f, 0x6f, 0x6b, 0x69, 0x65];
        assert(name@ =~= cookie_name());
        visible.push(Header { name: copy_bytes(name.as_slice()), value: cookies });
        assert(headers_view(visible@) =~= headers_view(before).push(
            HeaderView { name: cookie_name(), value: joined(cookie_values(all)) },
        ));
    }
    visible
}

/// Whether a byte is visible ASCII: a printable character, a space or a tab.
pub open spec fn is_visible_ascii(b: u8) -> bool {
    32 <= b < 127 || b == 9
}

/// Whether a header value is text: visible ASCII throughout.
pub open spec fn is_text(value: Seq<u8>) -> bool {
    forall|i: int| 0 <= i < value.len() ==> is_visible_ascii(#[trigger] value[i])
}

/// The characters of a header value that is text.
pub open spec fn text_of(value: Seq<u8>) -> Seq<char> {
    value.map_values(|b: u8| b as char)
}

/// Whether `needle` occurs in `hay` as a contiguous run of bytes.
pub open spec fn occurs_in(needle: Seq<u8>, hay: Seq<u8>) -> bool {
    exists|k: int| occurs_at(needle, hay, k)
}

/// Whether `needle` occurs in `hay` at offset `k`.
pub open spec fn occurs_at(needle: Seq<u8>, hay: Seq<u8>, k: int) -> bool {
    0 <= k && k + needle.len() <= hay.len() && hay.subrange(k, k + needle.len()) == needle
}

/// Whether a header value is text that holds `word`, in any ASCII case.
/// `word` is given in lower case.
pub open spec fn mentions(value: Seq<u8>, word: Seq<u8>) -> bool {
    is_text(value) && occurs_in(word, lower_bytes(value))
}

/// Whether the header at index `i` has the given name, in any ASCII case, and
/// a value that mentions `word`.
pub open spec fn mentions_at(headers: Seq<HeaderView>, name: Seq<u8>, word: Seq<u8>, i: int) -> bool {
    0 <= i < headers.len() && same_ignoring_case(headers[i].name, name) && mentions(
        headers[i].value,
        word,
    )
}

/// Whether some header of the given name mentions `word`.
pub open spec fn any_mentions(headers: Seq<HeaderView>, name: Seq<u8>, word: Seq<u8>) -> bool {
    exists|i: int| mentions_at(headers, name, word, i)
}

/// The bytes of `connection`.
pub open spec fn connection_name() -> Seq<u8> {
    seq![0x63u8, 0x6f, 0x6e, 0x6e, 0x65, 0x63, 0x74, 0x69, 0x6f, 0x6e]
}

/// The bytes of `upgrade`.
pub open spec fn upgrade_name() -> Seq<u8> {
    seq![0x75u8, 0x70, 0x67, 0x72, 0x61, 0x64, 0x65]
}

/// The bytes of `websocket`.
pub open spec fn websocket_word() -> Seq<u8> {
    seq![0x77u8, 0x65, 0x62, 0x73, 0x6f, 0x63, 0x6b, 0x65, 0x74]
}

/// The bytes of `host`.
pub open spec fn host_name() -> Seq<u8> {
    seq![0x68u8, 0x6f, 0x73, 0x74]
}

/// Whether a request asks for a WebSocket upgrade: some `Connection` header
/// mentions `upgrade` and some `Upgrade` header mentions `websocket`.
pub open spec fn is_upgrade_request(headers: Seq<HeaderView>) -> bool {
    any_mentions(headers, connection_name(), upgrade_name()) && any_mentions(
        headers,
        upgrade_name(),
        websocket_word(),
    )
}

/// Whether `i` is the first header of the given name, in any ASCII case.
pub open spec fn is_first_named(headers: Seq<HeaderView>, name: Seq<u8>, i: int) -> bool {
    &&& 0 <= i < headers.len()
    &&& same_ignoring_case(headers[i].name, name)
    &&& forall|j: int| 0 <= j < i ==> !same_ignoring_case((#[trigger] headers[j]).name, name)
}

/// Whether no header has the given name.
pub open spec fn none_named(headers: Seq<HeaderView>, name: Seq<u8>) -> bool {
    forall|j: int| 0 <= j < headers.len() ==> !same_ignoring_case((#[trigger] headers[j]).name, name)
}

/// Reads a header value as text through `HeaderValue::from_bytes` and
/// `HeaderValue::to_str` of the `http` crate. Trusted: the value is text
/// exactly when each byte is visible ASCII, and the text then has one
/// character for each byte.
#[verifier::external_body]
pub(crate) fn header_text(value: &[u8]) -> (text: Option<String>)
    ensures
        text.is_some() == is_text(value@),
        text matches Some(t) ==> t@ == text_of(value@),
{
    let value = hyper::header::HeaderValue::from_bytes(value).ok()?;
    value.to_str().ok().map(String::from)
}

/// ASCII lower case of a byte string.
pub fn to_lower_bytes(bytes: &[u8]) -> (low: Vec<u8>)
    ensures
        low@ == lower_bytes(bytes@),
{
    let mut low: Vec<u8> = Vec::new();
    let mut i: usize = 0;
    while i < bytes.len()
        invariant
            0 <= i <= bytes@.len(),
            low@ == lower_bytes(bytes@.subrange(0, i as int)),
        decreases bytes@.len() - i,
    {
        low.push(to_lower(bytes[i]));
        assert(low@ =~= lower_bytes(bytes@.subrange(0, i + 1)));
        i += 1;
    }
    assert(bytes@.subrange(0, i as int) =~= bytes@);
    low
}

/// Whether `needle` stands in `hay` at offset `k`.
fn found_at(hay: &[u8], needle: &[u8], k: usize) -> (found: bool)
    requires
        k + needle@.len() <= hay@.len() <= usize::MAX,
    ensures
        found == occurs_at(needle@, hay@, k as int),
{
    let mut j: usize = 0;
    while j < needle.len()
        invariant
            hay@.len() <= usize::MAX,
            k + needle@.len() <= hay@.len(),
            0 <= j <= needle@.len(),
            forall|p: int| 0 <= p < j ==> hay@[k + p] == needle@[p],
        decreases needle@.len() - j,
    {
        if hay[k + j] != needle[j] {
            assert(hay@.subrange(k as int, k + needle@.len())[j as int] != needle@[j as int]);
            return false;
        }
        j += 1;
    }
    assert(hay@.subrange(k as int, k + needle@.len()) =~= needle@);
    true
}

/// Whether `needle` occurs in `hay`.
pub fn contains_bytes(hay: &[u8], needle: &[u8]) -> (found: bool)
    ensures
        found == occurs_in(needle@, hay@),
{
    if needle.len() > hay.len() {
        return false;
    }
    let last: usize = hay.len() - needle.len();
    let mut k: usize = 0;
    while k < last
        invariant
            last + needle@.len() == hay@.len() <= usize::MAX,
            0 <= k <= last,
            forall|p: int| 0 <= p < k ==> !occurs_at(needle@, hay@, p),
        decreases last - k,
    {
        if found_at(hay, needle, k) {
            return true;
        }
        k += 1;
    }
    found_at(hay, needle, last)
}

/// Whether a header value is text that holds `word`, in any ASCII case.
pub fn value_mentions(value: &[u8], word: &[u8]) -> (yes: bool)
    ensures
        yes == mentions(value@, word@),
{
    match header_text(value) {
        Some(_) => {
            let low = to_lower_bytes(value);
            contains_bytes(low.as_slice(), word)
        },
        None => false,
    }
}

/// Whether some header of the given name mentions `word`.
pub fn any_header_mentions(headers: &Vec<Header>, name: &[u8], word: &[u8]) -> (yes: bool)
    ensures
        yes == any_mentions(headers_view(headers@), name@, word@),
{
    let ghost all = headers_view(headers@);
    let mut i: usize = 0;
    while i < headers.len()
        invariant
            all == headers_view(headers@),
            0 <= i <= headers@.len(),
            forall|j: int| 0 <= j < i ==> !mentions_at(all, name@, word@, j),
        decreases headers@.len() - i,
    {
        let header = &headers[i];
        assert(all[i as int] == header@);
        if eq_ignore_case(header.name.as_slice(), name) && value_mentions(header.value.as_slice(), word) {
            assert(mentions_at(all, name@, word@, i as int));
            return true;
        }
        i += 1;
    }
    false
}

/// Whether a request asks for a WebSocket upgrade.
pub fn is_websocket_request(headers: &Vec<Header>) -> (yes: bool)
    ensures
        yes == is_upgrade_request(headers_view(headers@)),
{
    let connection: [u8; 10] = [0x63, 0x6f, 0x6e, 0x6e, 0x65, 0x63, 0x74, 0x69, 0x6f, 0x6e];
    let upgrade: [u8; 7] = [0x75, 0x70, 0x67, 0x72, 0x61, 0x64, 0x65];
    let websocket: [u8; 9] = [0x77, 0x65, 0x62, 0x73, 0x6f, 0x63, 0x6b, 0x65, 0x74];
    assert(connection@ =~= connection_name());
    assert(upgrade@ =~= upgrade_name());
    assert(websocket@ =~= websocket_word());
    any_header_mentions(headers, connection.as_slice(), upgrade.as_slice())
        && any_header_mentions(headers, upgrade.as_slice(), websocket.as_slice())
}

/// The index of the first header of the given name, in any ASCII case.
pub fn first_header(headers: &Vec<Header>, name: &[u8]) -> (found: Option<usize>)
    ensures
        match found {
            Some(i) => is_first_named(headers_view(headers@), name@, i as int),
            None => none_named(headers_view(headers@), name@),
        },
{
    let ghost all = headers_view(headers@);
    let mut i: usize = 0;
    while i < headers.len()
        invariant
            all == headers_view(headers@),
            0 <= i <= headers@.len(),
            forall|j: int| 0 <= j < i ==> !same_ignoring_case((#[trigger] all[j]).name, name@),
        decreases headers@.len() - i,
    {
        assert(all[i as int] == headers@[i as int]@);
        if eq_ignore_case(headers[i].name.as_slice(), name) {
            return Some(i);
        }
        i += 1;
    }
    None
}

/// The cookie values of two lists, one after the other, are those of the
/// first followed by those of the second.
pub proof fn lemma_cookie_values_concat(a: Seq<HeaderView>, b: Seq<HeaderView>)
    ensures
        cookie_values(a + b) == cookie_values(a) + cookie_values(b),
    decreases b.len(),
{
    if b.len() == 0 {
        assert(a + b =~= a);
        assert(cookie_values(a) + cookie_values(b) =~= cookie_values(a));
    } else {
        assert((a + b).drop_last() =~= a + b.drop_last());
        assert((a + b).last() == b.last());
        lemma_cookie_values_concat(a, b.drop_last());
        assert(cookie_values(a + b) =~= cookie_values(a) + cookie_values(b));
    }
}

/// The place of the header at index `i` among the cookie values: the number
/// of cookie headers before it.
pub open spec fn cookie_rank(headers: Seq<HeaderView>, i: int) -> int {
    cookie_values(headers.subrange(0, i)).len() as int
}

/// The value of a cookie header stands among the cookie values at the
/// header's rank.
pub proof fn lemma_cookie_at_rank(headers: Seq<HeaderView>, i: int)
    requires
        0 <= i < headers.len(),
        is_cookie_name(headers[i].name),
    ensures
        0 <= cookie_rank(headers, i) < cookie_values(headers).len(),
        cookie_values(headers)[cookie_rank(headers, i)] == headers[i].value,
        cookie_rank(headers, i + 1) == cookie_rank(headers, i) + 1,
{
    let upto = headers.subrange(0, i + 1);
    let rest = headers.subrange(i + 1, headers.len() as int);
    assert(upto.drop_last() =~= headers.subrange(0, i));
    assert(upto.last() == headers[i]);
    assert(headers =~= upto + rest);
    lemma_cookie_values_concat(upto, rest);
}

/// Coalescing is stable: of two cookie headers, the value of the earlier one
/// stands before the value of the later one among the coalesced values.
pub proof fn lemma_cookies_keep_order(headers: Seq<HeaderView>, i: int, j: int)
    requires
        0 <= i < j < headers.len(),
        is_cookie_name(headers[i].name),
        is_cookie_name(headers[j].name),
    ensures
        0 <= cookie_rank(headers, i) < cookie_rank(headers, j) < cookie_values(headers).len(),
        cookie_values(headers)[cookie_rank(headers, i)] == headers[i].value,
        cookie_values(headers)[cookie_rank(headers, j)] == headers[j].value,
{
    lemma_cookie_at_rank(headers, i);
    lemma_cookie_at_rank(headers, j);
    let first = headers.subrange(0, i + 1);
    let between = headers.subrange(i + 1, j);
    assert(headers.subrange(0, j) =~= first + between);
    lemma_cookie_values_concat(first, between);
}

/// Among the headers that are no cookies there is no cookie value, and
/// taking the cookies out of them changes nothing.
pub proof fn lemma_others_hold_no_cookie(headers: Seq<HeaderView>)
    ensures
        cookie_values(other_headers(headers)).len() == 0,
        other_headers(other_headers(headers)) == other_headers(headers),
    decreases headers.len(),
{
    if headers.len() > 0 {
        lemma_others_hold_no_cookie(headers.drop_last());
        if !is_cookie_name(headers.last().name) {
            let others = other_headers(headers);
            assert(others.drop_last() =~= other_headers(headers.drop_last()));
            assert(others.last() == headers.last());
        }
    }
}

/// Coalescing is idempotent: a list that was coalesced stays as it is when
/// it is coalesced again.
pub proof fn lemma_coalesce_idempotent(headers: Seq<HeaderView>)
    ensures
        coalesced(coalesced(headers)) == coalesced(headers),
{
    lemma_others_hold_no_cookie(headers);
    if cookie_values(headers).len() > 0 {
        let others = other_headers(headers);
        let value = joined(cookie_values(headers));
        let cookie = HeaderView { name: cookie_name(), value };
        let once = others.push(cookie);
        assert(once.drop_last() =~= others);
        assert(once.last() == cookie);
        assert(is_cookie_name(cookie.name));
        assert(cookie_values(once) =~= seq![value]);
        assert(joined(seq![value]) == value);
    }
}

} // verus!
