use vstd::prelude::*;
use vstd::utf8::encode_utf8;
use crate::error::{BridgeError, BridgeErrorView, ProtocolFault, ProtocolFaultView};
use crate::tunnel::{Target, TargetView};
use tokio_tungstenite::tungstenite::client::IntoClientRequest;

verus! {

/// `http::Request`, carried through unopened. What is known of an upgrade request is its
/// header fields, by [`request_headers`].
#[verifier::external_type_specification]
#[verifier::external_body]
#[verifier::reject_recursive_types(T)]
pub struct ExRequest<T>(http::Request<T>);

/// `http::header::HeaderName`, carried from where a name is parsed to where it is set.
/// What is known of one is its bytes, by [`header_name_bytes`].
#[verifier::external_type_specification]
#[verifier::external_body]
pub struct ExHeaderName(http::header::HeaderName);

/// `http::header::HeaderValue`, carried from where a value is parsed to where it is set.
/// What is known of one is its bytes, by [`header_value_bytes`].
#[verifier::external_type_specification]
#[verifier::external_body]
pub struct ExHeaderValue(http::header::HeaderValue);

/// `http::header::InvalidHeaderName`, which says no more than that a name was refused.
#[verifier::external_type_specification]
#[verifier::external_body]
pub struct ExInvalidHeaderName(http::header::InvalidHeaderName);

/// `http::header::InvalidHeaderValue`, which says no more than that a value was refused.
#[verifier::external_type_specification]
#[verifier::external_body]
pub struct ExInvalidHeaderValue(http::header::InvalidHeaderValue);

/// `http::header::MaxSizeReached`, which says no more than that a header map is full.
#[verifier::external_type_specification]
#[verifier::external_body]
pub struct ExMaxSizeReached(http::header::MaxSizeReached);

/// The header fields of a request: each field name, in lower case, with the values it
/// carries, in order. Names and values are byte strings.
pub type HeaderFields = Map<Seq<u8>, Seq<Seq<u8>>>;

/// One configured header: its name and its value, as text.
pub type HeaderPair = (Seq<char>, Seq<char>);

/// The bytes a header field name may be made of: letters, digits and
/// ``! # $ % & ' * + - . ^ _ ` | ~``.
pub open spec fn is_token_byte(b: u8) -> bool {
    ||| 0x30 <= b <= 0x39
    ||| 0x41 <= b <= 0x5a
    ||| 0x61 <= b <= 0x7a
    ||| b == 0x21
    ||| 0x23 <= b <= 0x27
    ||| b == 0x2a
    ||| b == 0x2b
    ||| b == 0x2d
    ||| b == 0x2e
    ||| 0x5e <= b <= 0x60
    ||| b == 0x7c
    ||| b == 0x7e
}

/// The longest field name, in bytes.
pub open spec fn max_header_name_len() -> nat {
    65535
}

/// A legal field name: not empty, not too long, made of token bytes.
pub open spec fn header_name_valid(name: Seq<u8>) -> bool {
    &&& 1 <= name.len() <= max_header_name_len()
    &&& forall|i: int| 0 <= i < name.len() ==> is_token_byte(#[trigger] name[i])
}

/// An upper-case letter turned into its lower-case one; any other byte as it is.
pub open spec fn lower_byte(b: u8) -> u8 {
    if 0x41 <= b <= 0x5a {
        (b + 0x20) as u8
    } else {
        b
    }
}

/// The name under which a field is filed: the name given, in lower case.
pub open spec fn canonical_header_name(name: Seq<u8>) -> Seq<u8> {
    Seq::new(name.len(), |i: int| lower_byte(name[i]))
}

/// A byte that may stand in a field value: a tab, or anything from the space up but DEL.
pub open spec fn is_value_byte(b: u8) -> bool {
    (b >= 32 && b != 127) || b == 9
}

/// A legal field value.
pub open spec fn header_value_valid(value: Seq<u8>) -> bool {
    forall|i: int| 0 <= i < value.len() ==> is_value_byte(#[trigger] value[i])
}

/// What is wrong with a configured header, if anything.
pub enum HeaderFault {
    /// The name is no legal field name.
    Name,
    /// The value is no legal field value.
    Value,
}

/// What a configured header is refused for by its own text: its name, else its value.
pub open spec fn header_defect(pair: HeaderPair) -> Option<HeaderFault> {
    if !header_name_valid(encode_utf8(pair.0)) {
        Some(HeaderFault::Name)
    } else if !header_value_valid(encode_utf8(pair.1)) {
        Some(HeaderFault::Value)
    } else {
        None
    }
}

/// The fields after one configured header has been set: its name now carries its value
/// and nothing else.
pub open spec fn with_header(fields: HeaderFields, pair: HeaderPair) -> HeaderFields {
    fields.insert(canonical_header_name(encode_utf8(pair.0)), seq![encode_utf8(pair.1)])
}

/// The fields after a list of configured headers has been set, first to last.
pub open spec fn with_headers(fields: HeaderFields, pairs: Seq<HeaderPair>) -> HeaderFields
    decreases pairs.len(),
{
    if pairs.len() == 0 {
        fields
    } else {
        with_header(with_headers(fields, pairs.drop_last()), pairs.last())
    }
}

/// The position of the first configured header that its own text rules out.
pub open spec fn first_defect(pairs: Seq<HeaderPair>) -> Option<int>
    decreases pairs.len(),
{
    if pairs.len() == 0 {
        None
    } else {
        match first_defect(pairs.drop_last()) {
            Some(i) => Some(i),
            None => if header_defect(pairs.last()) is Some {
                Some(pairs.len() - 1)
            } else {
                None
            },
        }
    }
}

/// The number of names under which a header map surely takes a field: it refuses one
/// only where it would have to grow past its largest size, and it never has to while it
/// holds fewer names than this.
pub open spec fn field_room() -> nat {
    6554
}

/// Whether header fields are few enough that `more` further fields are surely taken,
/// one after the other.
pub open spec fn has_room(fields: HeaderFields, more: nat) -> bool {
    more == 0 || (fields.dom().finite() && fields.dom().len() + more <= field_room())
}

/// The number of header fields that a new upgrade request carries: `host`,
/// `connection`, `upgrade`, `sec-websocket-version` and `sec-websocket-key`.
pub open spec fn upgrade_field_count() -> nat {
    5
}

/// What making the upgrade request for a URL comes to: what the request says of where
/// to connect, or why the URL makes no request.
pub uninterp spec fn upgrade_outcome(url: Seq<char>) -> Result<TargetView, ProtocolFaultView>;

/// The header fields that a request of the `http` crate holds in its `HeaderMap`.
pub uninterp spec fn request_headers(request: http::Request<()>) -> HeaderFields;

/// The bytes of a header name of the `http` crate.
pub uninterp spec fn header_name_bytes(name: http::header::HeaderName) -> Seq<u8>;

/// The bytes of a header value of the `http` crate.
pub uninterp spec fn header_value_bytes(value: http::header::HeaderValue) -> Seq<u8>;

/// Makes the upgrade request for a URL with `IntoClientRequest::into_client_request` of
/// the `tungstenite` crate, reads scheme, host and port off the request's URI with
/// `Uri::scheme_str`, `Uri::host` and `Uri::port_u16` of the `http` crate, and tells the
/// kinds of `tungstenite::Error` apart, taking the description of any other kind from
/// its `Display`.
///
/// Believed of them: whether a URL makes a request, what that request's URI says of
/// scheme, host and port, and how a refusal reads, depend on the URL alone; and the
/// request carries five header fields. Nothing is said of what the fields hold: one of
/// them is a random key.
#[verifier::external_body]
fn client_request(url: &str) -> (outcome: Result<(http::Request<()>, Target), ProtocolFault>)
    ensures
        match outcome {
            Ok((request, target)) => {
                &&& upgrade_outcome(url@) == Ok::<TargetView, ProtocolFaultView>(target@)
                &&& request_headers(request).dom().finite()
                &&& request_headers(request).dom().len() == upgrade_field_count()
            },
            Err(fault) => upgrade_outcome(url@) == Err::<TargetView, ProtocolFaultView>(fault@),
        },
{
    let request = match url.into_client_request() {
        Ok(request) => request,
        Err(tokio_tungstenite::tungstenite::Error::Url(
            tokio_tungstenite::tungstenite::error::UrlError::NoHostName,
        )) => return Err(ProtocolFault::NoHostName),
        Err(tokio_tungstenite::tungstenite::Error::Url(
            tokio_tungstenite::tungstenite::error::UrlError::UnsupportedUrlScheme,
        )) => return Err(ProtocolFault::UnsupportedUrlScheme),
        Err(other) => return Err(ProtocolFault::Reported(other.to_string())),
    };
    let scheme = request.uri().scheme_str().map(String::from);
    let host = request.uri().host().map(String::from);
    let port = request.uri().port_u16();
    Ok((request, Target { scheme, host, port }))
}

/// The upgrade request for a URL, with what it says of where to connect.
///
/// A URL that makes no request is refused with the protocol layer's reason.
pub fn upgrade_request(url: &str) -> (outcome: Result<(http::Request<()>, Target), BridgeError>)
    ensures
        match outcome {
            Ok((request, target)) => {
                &&& upgrade_outcome(url@) == Ok::<TargetView, ProtocolFaultView>(target@)
                &&& request_headers(request).dom().finite()
                &&& request_headers(request).dom().len() == upgrade_field_count()
            },
            Err(error) => error matches BridgeError::Websocket(fault) && upgrade_outcome(url@)
                == Err::<TargetView, ProtocolFaultView>(fault@),
        },
{
    match client_request(url) {
        Ok(made) => Ok(made),
        Err(fault) => Err(BridgeError::Websocket(fault)),
    }
}

/// Parses a header name with `HeaderName::from_str` of the `http` crate.
///
/// Believed of it: a text is taken iff it is a legal field name, and the name it gives
/// is the text in lower case.
#[verifier::external_body]
fn parse_header_name(text: &str) -> (outcome: Result<
    http::header::HeaderName,
    http::header::InvalidHeaderName,
>)
    ensures
        match outcome {
            Ok(name) => header_name_valid(encode_utf8(text@)) && header_name_bytes(name)
                == canonical_header_name(encode_utf8(text@)),
            Err(_) => !header_name_valid(encode_utf8(text@)),
        },
{
    <http::header::HeaderName as std::str::FromStr>::from_str(text)
}

/// Parses a header value with `HeaderValue::from_str` of the `http` crate.
///
/// Believed of it, by its source: a text is taken iff each of its bytes may stand in a
/// field value, bytes from 128 up among them, and the value it gives is the text, byte
/// for byte.
#[verifier::external_body]
fn parse_header_value(text: &str) -> (outcome: Result<
    http::header::HeaderValue,
    http::header::InvalidHeaderValue,
>)
    ensures
        match outcome {
            Ok(value) => header_value_valid(encode_utf8(text@)) && header_value_bytes(value)
                == encode_utf8(text@),
            Err(_) => !header_value_valid(encode_utf8(text@)),
        },
{
    http::header::HeaderValue::from_str(text)
}

/// Sets a field on a request with `HeaderMap::try_insert` of the `http` crate.
///
/// Believed of it: a field that is set carries the new value alone, under its name, and
/// every other field is as it was; a request that refuses the field keeps the fields it
/// had, and refuses only where it holds so many names that it has no room.
#[verifier::external_body]
fn insert_field(
    request: &mut http::Request<()>,
    name: http::header::HeaderName,
    value: http::header::HeaderValue,
) -> (outcome: Result<(), http::header::MaxSizeReached>)
    ensures
        match outcome {
            Ok(()) => request_headers(*final(request)) == request_headers(*old(request)).insert(
                header_name_bytes(name),
                seq![header_value_bytes(value)],
            ),
            Err(_) => request_headers(*final(request)) == request_headers(*old(request))
                && !has_room(request_headers(*old(request)), 1),
        },
{
    match request.headers_mut().try_insert(name, value) {
        Ok(_) => Ok(()),
        Err(full) => Err(full),
    }
}

/// The error that a header refused for its text is reported with: it names the header
/// as it was configured.
pub open spec fn header_error(name: Seq<char>, fault: HeaderFault) -> BridgeErrorView {
    match fault {
        HeaderFault::Name => BridgeErrorView::InvalidHeaderName(name),
        HeaderFault::Value => BridgeErrorView::InvalidHeaderValue(name),
    }
}

/// The error that a request without room for another field is reported with.
pub open spec fn capacity_error() -> BridgeErrorView {
    BridgeErrorView::Websocket(ProtocolFaultView::HeaderCapacity)
}

/// The first position at which a configured header is ruled out by its own text is the
/// one with a defect that no defective header comes before.
pub proof fn lemma_first_defect(pairs: Seq<HeaderPair>)
    ensures
        match first_defect(pairs) {
            Some(i) => 0 <= i < pairs.len() && header_defect(pairs[i]) is Some && forall|j: int|
                0 <= j < i ==> header_defect(#[trigger] pairs[j]) is None,
            None => forall|j: int|
                0 <= j < pairs.len() ==> header_defect(#[trigger] pairs[j]) is None,
        },
    decreases pairs.len(),
{
    if pairs.len() > 0 {
        let front = pairs.drop_last();
        lemma_first_defect(front);
        assert forall|j: int| 0 <= j < front.len() implies front[j] == pairs[j] by {}
    }
}

/// The name that a configured header is filed under.
pub open spec fn field_name(pair: HeaderPair) -> Seq<u8> {
    canonical_header_name(encode_utf8(pair.0))
}

/// The value that the last configured header of a given field name asks for, if any
/// header of the list has that name.
pub open spec fn last_setting(pairs: Seq<HeaderPair>, name: Seq<u8>) -> Option<Seq<u8>>
    decreases pairs.len(),
{
    if pairs.len() == 0 {
        None
    } else if field_name(pairs.last()) == name {
        Some(encode_utf8(pairs.last().1))
    } else {
        last_setting(pairs.drop_last(), name)
    }
}

/// Setting configured headers overwrites: a field that any of them names carries, in the
/// end, the value of the last of them that names it and nothing else, whatever the
/// request carried under that name; every other field is as it was.
pub proof fn law_last_setting_wins(base: HeaderFields, pairs: Seq<HeaderPair>, name: Seq<u8>)
    ensures
        match last_setting(pairs, name) {
            Some(value) => with_headers(base, pairs).contains_key(name) && with_headers(
                base,
                pairs,
            )[name] == seq![value],
            None => (with_headers(base, pairs).contains_key(name) <==> base.contains_key(name))
                && (base.contains_key(name) ==> with_headers(base, pairs)[name] == base[name]),
        },
    decreases pairs.len(),
{
    if pairs.len() > 0 {
        law_last_setting_wins(base, pairs.drop_last(), name);
    }
}

/// How many configured headers are set before the attempt ends: all of them, or those
/// before the first that its own text rules out.
pub open spec fn attempted(pairs: Seq<HeaderPair>) -> nat {
    match first_defect(pairs) {
        Some(i) => i as nat,
        None => pairs.len(),
    }
}

/// What setting a list of configured headers comes to on a request with room for them:
/// the first header that its own text rules out is refused by name, and where there is
/// none every header is set, first to last.
pub open spec fn merge_outcome(fields: HeaderFields, pairs: Seq<HeaderPair>) -> Result<
    HeaderFields,
    BridgeErrorView,
> {
    match first_defect(pairs) {
        Some(i) => Err(header_error(pairs[i].0, header_defect(pairs[i])->0)),
        None => Ok(with_headers(fields, pairs)),
    }
}

/// Sets one configured header on an upgrade request, so that it overwrites whatever the
/// request carried under its name.
///
/// The name is judged first, then the value; a header that fails either is refused by
/// name and never reaches the request. A legal header is set unless the request has no
/// room for it, which it has while it holds few names.
pub fn set_header(request: http::Request<()>, name: &String, value: &String) -> (outcome: Result<
    http::Request<()>,
    BridgeError,
>)
    ensures
        match outcome {
            Ok(set) => header_defect((name@, value@)) is None && request_headers(set)
                == with_header(request_headers(request), (name@, value@)),
            Err(error) => match header_defect((name@, value@)) {
                Some(fault) => error@ == header_error(name@, fault),
                None => error@ == capacity_error() && !has_room(request_headers(request), 1),
            },
        },
{
    let parsed_name = match parse_header_name(name.as_str()) {
        Ok(parsed) => parsed,
        Err(_) => return Err(BridgeError::InvalidHeaderName(name.clone())),
    };
    let parsed_value = match parse_header_value(value.as_str()) {
        Ok(parsed) => parsed,
        Err(_) => return Err(BridgeError::InvalidHeaderValue(name.clone())),
    };
    let mut request = request;
    match insert_field(&mut request, parsed_name, parsed_value) {
        Ok(()) => Ok(request),
        Err(_) => Err(BridgeError::Websocket(ProtocolFault::HeaderCapacity)),
    }
}

/// Setting one more field adds at most one name.
proof fn lemma_room_after(fields: HeaderFields, pair: HeaderPair, more: nat)
    requires
        has_room(fields, more + 1),
    ensures
        has_room(with_header(fields, pair), more),
        fields.dom().finite() ==> with_header(fields, pair).dom().finite(),
{
    let name = field_name(pair);
    assert(with_header(fields, pair).dom() =~= fields.dom().insert(name));
}

/// Sets the configured headers on an upgrade request, first to last, so that each
/// overwrites whatever the request carried under its name.
///
/// The first header whose name or value is not legal ends the attempt with an error that
/// names it. Where every header is legal the request comes back with all of them set.
/// This is what happens whenever the request has room for the headers, and always where
/// there is none to set; a request that is too full for a field it is asked to take
/// ends the attempt instead.
pub fn merge_headers(request: http::Request<()>, headers: &Vec<(String, String)>) -> (outcome:
    Result<http::Request<()>, BridgeError>)
    ensures
        match outcome {
            Ok(merged) => merge_outcome(request_headers(request), headers.deep_view()) == Ok::<
                HeaderFields,
                BridgeErrorView,
            >(request_headers(merged)),
            Err(error) => merge_outcome(request_headers(request), headers.deep_view()) == Err::<
                HeaderFields,
                BridgeErrorView,
            >(error@) || (error@ == capacity_error() && !has_room(
                request_headers(request),
                attempted(headers.deep_view()),
            )),
        },
        request_headers(request).dom().finite() ==> (outcome matches Ok(merged)
            ==> request_headers(merged).dom().finite() && request_headers(merged).dom().len()
            <= request_headers(request).dom().len() + headers@.len()),
{
    let ghost pairs = headers.deep_view();
    let ghost base = request_headers(request);
    let mut current = request;
    let mut i: usize = 0;
    proof {
        lemma_first_defect(pairs);
    }
    while i < headers.len()
        invariant
            i <= headers.len(),
            pairs == headers.deep_view(),
            pairs.len() == headers.len(),
            forall|j: int| 0 <= j < i ==> header_defect(#[trigger] pairs[j]) is None,
            base == request_headers(request),
            request_headers(current) == with_headers(base, pairs.take(i as int)),
            has_room(base, attempted(pairs)) ==> has_room(
                request_headers(current),
                (attempted(pairs) - i) as nat,
            ),
            i <= attempted(pairs),
            base.dom().finite() ==> request_headers(current).dom().finite()
                && request_headers(current).dom().len() <= base.dom().len() + i,
        decreases headers.len() - i,
    {
        let name = &headers[i].0;
        let value = &headers[i].1;
        assert(pairs[i as int] == (name@, value@));
        proof {
            lemma_first_defect(pairs);
        }
        let ghost before = request_headers(current);
        match set_header(current, name, value) {
            Ok(set) => {
                current = set;
                proof {
                    assert(pairs.take(i + 1).drop_last() == pairs.take(i as int));
                    assert(pairs.take(i + 1).last() == pairs[i as int]);
                    assert(with_header(before, pairs[i as int]).dom() =~= before.dom().insert(
                        field_name(pairs[i as int]),
                    ));
                    if has_room(base, attempted(pairs)) {
                        lemma_room_after(
                            before,
                            pairs[i as int],
                            (attempted(pairs) - i - 1) as nat,
                        );
                    }
                }
            },
            Err(error) => {
                proof {
                    if header_defect(pairs[i as int]) is None {
                        assert(attempted(pairs) > i);
                        if has_room(base, attempted(pairs)) {
                            assert(has_room(before, (attempted(pairs) - i) as nat));
                            assert(has_room(before, 1));
                        }
                    }
                }
                return Err(error);
            },
        }
        i += 1;
    }
    proof {
        lemma_first_defect(pairs);
        assert(pairs.take(i as int) == pairs);
    }
    Ok(current)
}

} // verus!
