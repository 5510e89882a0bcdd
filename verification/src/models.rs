//! The wire-level value types: frame headers, messages, and response
//! envelopes, together with their byte codecs.
//!
//! Wire format (all multi-byte integers big-endian):
//! - request frame: `type(4 ASCII) . sender_id(8 ASCII) . length(u32) . body(length bytes)`
//! - response frame: `tag(4 ASCII, "SUCC" or "ERR ") . length(u32) . body(length bytes)`

use crate::utils::{
    as_u32_be, bytes_to_array, spec_u32_from_be_bytes, spec_u32_to_be_bytes,
    transform_u32_to_array_of_u8, GeneralError,
};
use vstd::prelude::*;
use vstd::slice::{slice_subrange, slice_to_vec};
use vstd::string::{StrSliceExecFns, StringExecFns, StringSliceAdditionalSpecFns};
use vstd::utf8::{decode_utf8, encode_utf8, encode_utf8_decode_utf8, encode_utf8_valid_utf8, valid_utf8};

verus! {

broadcast use vstd::array::group_array_axioms;

/// A frame header could not be decoded; fatal to the session.
#[derive(Debug, Clone, Copy, PartialEq, Eq, Structural)]
pub enum FramingError {
    /// No bytes at all were available for the header.
    Empty,
    /// The header bytes were present but not exactly 16 of them.
    Malformed,
    /// The header announced a zero-length body, which the protocol rejects.
    ZeroLengthBody,
}

/// A response envelope could not be decoded; fatal to the `send` call that read it.
#[derive(Debug, Clone, Copy, PartialEq, Eq, Structural)]
pub enum ProtocolError {
    /// The 4-byte type tag was neither `SUCC` nor `ERR `.
    UnknownResponseType,
    /// Fewer than the 8 envelope prefix bytes were available.
    TooShort,
}

/// The fixed 16-byte frame header: 4 ASCII bytes of message type (left
/// justified, space padded), 8 ASCII bytes of sender id, and the body length
/// as a big-endian 32-bit unsigned integer.
#[derive(Debug, Clone, Copy, PartialEq)]
pub struct Header {
    pub message_type: [u8; 4],
    pub sender_id: [u8; 8],
    pub message_length: u32,
}

/// The 16 wire bytes of a header.
pub open spec fn spec_header_bytes(h: Header) -> Seq<u8> {
    h.message_type@ + h.sender_id@ + spec_u32_to_be_bytes(h.message_length)
}

/// What decoding a header buffer yields: the message type bytes, the sender
/// id bytes, and the body length, or the framing error for buffers of the
/// wrong size.
pub open spec fn spec_parse_header(b: Seq<u8>) -> Result<(Seq<u8>, Seq<u8>, u32), FramingError> {
    if b.len() == 16 {
        Ok((b.subrange(0, 4), b.subrange(4, 12), spec_u32_from_be_bytes(b.subrange(12, 16))))
    } else if b.len() == 0 {
        Err(FramingError::Empty)
    } else {
        Err(FramingError::Malformed)
    }
}

impl Header {
    pub fn new(message_type: [u8; 4], sender_id: [u8; 8], message_length: u32) -> (r: Header)
        ensures
            r == (Header { message_type, sender_id, message_length }),
    {
        Header { message_type, sender_id, message_length }
    }

    /// Decodes a header from a buffer holding exactly its 16 wire bytes.
    /// Any other buffer size is rejected; an empty buffer is distinguished
    /// only for diagnostics.
    pub fn from_bytes(data: &Vec<u8>) -> (r: Result<Header, FramingError>)
        ensures
            r is Ok <==> data@.len() == 16,
            (spec_parse_header(data@) matches Ok(p) ==> r matches Ok(h) && h.message_type@ == p.0
                && h.sender_id@ == p.1 && h.message_length == p.2),
            (spec_parse_header(data@) matches Err(e) ==> r matches Err(e2) && e2 == e),
            forall|h: Header|
                data@ == spec_header_bytes(h) ==> r == Ok::<Header, FramingError>(h),
    {
        if data.len() == 16 {
            let message_type: [u8; 4] = bytes_to_array(slice_subrange(data.as_slice(), 0, 4));
            let sender_id: [u8; 8] = bytes_to_array(slice_subrange(data.as_slice(), 4, 12));
            let length_bytes: [u8; 4] = bytes_to_array(slice_subrange(data.as_slice(), 12, 16));
            let h = Header::new(message_type, sender_id, as_u32_be(&length_bytes));
            proof {
                assert forall|h0: Header| data@ == spec_header_bytes(h0) implies h == h0 by {
                    assert(h0.message_type@.len() == 4 && h0.sender_id@.len() == 8);
                    assert(data@.subrange(0, 4) =~= h0.message_type@);
                    assert(data@.subrange(4, 12) =~= h0.sender_id@);
                    assert(data@.subrange(12, 16) =~= spec_u32_to_be_bytes(h0.message_length));
                    crate::utils::lemma_u32_be_bytes_round_trip(h0.message_length);
                    assert(h.message_type =~= h0.message_type);
                    assert(h.sender_id =~= h0.sender_id);
                }
            }
            Ok(h)
        } else if data.len() == 0 {
            Err(FramingError::Empty)
        } else {
            Err(FramingError::Malformed)
        }
    }

    /// The wire size of every header.
    pub fn size() -> (r: u8)
        ensures
            r == 16,
    {
        16
    }

    /// The message type bytes as a string slice, when they are valid UTF-8.
    pub fn get_message_type_string(&self) -> (r: Result<&str, Box<GeneralError>>)
        ensures
            r is Ok <==> valid_utf8(self.message_type@),
            r matches Ok(s) ==> s.spec_bytes() == self.message_type@,
    {
        match str_from_utf8(self.message_type.as_slice()) {
            Some(s) => Ok(s),
            None => Err(GeneralError::new(String::from_str("message type is not valid utf-8"))),
        }
    }

    /// The sender id bytes as a string slice, when they are valid UTF-8.
    pub fn get_sender_id_string(&self) -> (r: Result<&str, Box<GeneralError>>)
        ensures
            r is Ok <==> valid_utf8(self.sender_id@),
            r matches Ok(s) ==> s.spec_bytes() == self.sender_id@,
    {
        match str_from_utf8(self.sender_id.as_slice()) {
            Some(s) => Ok(s),
            None => Err(GeneralError::new(String::from_str("sender id is not valid utf-8"))),
        }
    }

    /// Encodes this header into its 16 wire bytes.
    pub fn to_bytes(&self) -> (r: Vec<u8>)
        ensures
            r@ == spec_header_bytes(*self),
            r@.len() == 16,
    {
        let mut serialized: Vec<u8> = Vec::new();
        let mut message_type = slice_to_vec(self.message_type.as_slice());
        serialized.append(&mut message_type);
        let mut sender_id = slice_to_vec(self.sender_id.as_slice());
        serialized.append(&mut sender_id);
        let length_bytes = transform_u32_to_array_of_u8(self.message_length);
        let mut length_vec = slice_to_vec(length_bytes.as_slice());
        serialized.append(&mut length_vec);
        proof {
            assert(serialized@ =~= spec_header_bytes(*self));
        }
        serialized
    }
}

/// Round trip: the wire encoding of any header decodes back to that header's
/// own fields.
pub proof fn lemma_header_round_trip(h: Header)
    ensures
        spec_header_bytes(h).len() == 16,
        spec_parse_header(spec_header_bytes(h)) == Ok::<(Seq<u8>, Seq<u8>, u32), FramingError>(
            (h.message_type@, h.sender_id@, h.message_length),
        ),
{
    let b = spec_header_bytes(h);
    assert(h.message_type@.len() == 4 && h.sender_id@.len() == 8);
    assert(b.subrange(0, 4) =~= h.message_type@);
    assert(b.subrange(4, 12) =~= h.sender_id@);
    assert(b.subrange(12, 16) =~= spec_u32_to_be_bytes(h.message_length));
    crate::utils::lemma_u32_be_bytes_round_trip(h.message_length);
}

/// One request frame: a header paired with its body bytes.
#[derive(Debug, Clone, PartialEq)]
pub struct Message {
    pub header: Header,
    pub data: Vec<u8>,
}

impl Message {
    /// The header's length field counts exactly the body bytes.
    pub open spec fn wf(self) -> bool {
        self.header.message_length == self.data@.len()
    }

    /// The wire bytes of the whole frame: header then body.
    pub open spec fn spec_bytes(self) -> Seq<u8> {
        spec_header_bytes(self.header) + self.data@
    }

    pub fn new(header: Header, data: Vec<u8>) -> (r: Message)
        ensures
            r.header == header,
            r.data == data,
    {
        Message { header, data }
    }

    /// Encodes the whole frame for transmission.
    pub fn to_bytes(&self) -> (r: Vec<u8>)
        ensures
            r@ == self.spec_bytes(),
    {
        let mut serialized = self.header.to_bytes();
        let mut body = slice_to_vec(self.data.as_slice());
        serialized.append(&mut body);
        serialized
    }
}

/// The layout of a well-formed frame on the wire: the first 16 bytes are the
/// header's encoding and everything after them is the body, so a receiver
/// that splits the stream there recovers exactly what the sender framed.
pub proof fn lemma_message_frame_layout(m: Message)
    requires
        m.wf(),
    ensures
        m.spec_bytes().len() == 16 + m.data@.len(),
        m.spec_bytes().subrange(0, 16) == spec_header_bytes(m.header),
        m.spec_bytes().skip(16) == m.data@,
{
    assert(m.header.message_type@.len() == 4 && m.header.sender_id@.len() == 8);
    assert(m.spec_bytes().subrange(0, 16) =~= spec_header_bytes(m.header));
    assert(m.spec_bytes().skip(16) =~= m.data@);
}

/// Whether a response reports success or an application error.
#[derive(Debug, Clone, Copy, PartialEq, Eq, Structural)]
pub enum ResponseType {
    SUCC,
    ERR,
}

/// The 4 ASCII tag bytes of a response type: `SUCC` for success, `ERR `
/// (with a trailing space: the field is fixed width) for error.
pub open spec fn spec_tag_bytes(t: ResponseType) -> Seq<u8> {
    match t {
        ResponseType::SUCC => seq![83u8, 85u8, 67u8, 67u8],
        ResponseType::ERR => seq![69u8, 82u8, 82u8, 32u8],
    }
}

/// What decoding a 4-byte tag yields.
pub open spec fn spec_parse_tag(b: Seq<u8>) -> Result<ResponseType, ProtocolError> {
    if b == spec_tag_bytes(ResponseType::SUCC) {
        Ok(ResponseType::SUCC)
    } else if b == spec_tag_bytes(ResponseType::ERR) {
        Ok(ResponseType::ERR)
    } else {
        Err(ProtocolError::UnknownResponseType)
    }
}

impl ResponseType {
    /// Encodes this tag into its 4 wire bytes.
    pub fn to_bytes(&self) -> (r: Vec<u8>)
        ensures
            r@ == spec_tag_bytes(*self),
    {
        let mut r: Vec<u8> = Vec::new();
        match self {
            ResponseType::SUCC => {
                r.push(83);  // 'S'
                r.push(85);  // 'U'
                r.push(67);  // 'C'
                r.push(67);  // 'C'
            },
            ResponseType::ERR => {
                r.push(69);  // 'E'
                r.push(82);  // 'R'
                r.push(82);  // 'R'
                r.push(32);  // ' '
            },
        }
        proof {
            assert(r@ =~= spec_tag_bytes(*self));
        }
        r
    }

    /// Decodes a tag from its 4 wire bytes.
    pub fn from_tag(tag: &[u8; 4]) -> (r: Result<ResponseType, ProtocolError>)
        ensures
            r == spec_parse_tag(tag@),
    {
        if tag[0] == 83 && tag[1] == 85 && tag[2] == 67 && tag[3] == 67 {
            proof {
                assert(tag@ =~= spec_tag_bytes(ResponseType::SUCC));
            }
            Ok(ResponseType::SUCC)
        } else if tag[0] == 69 && tag[1] == 82 && tag[2] == 82 && tag[3] == 32 {
            proof {
                assert(tag@ =~= spec_tag_bytes(ResponseType::ERR));
            }
            Ok(ResponseType::ERR)
        } else {
            proof {
                assert(tag@ != spec_tag_bytes(ResponseType::SUCC));
                assert(tag@ != spec_tag_bytes(ResponseType::ERR));
            }
            Err(ProtocolError::UnknownResponseType)
        }
    }
}

/// A response envelope: a type tag, a 32-bit big-endian length, and a body of
/// exactly that many bytes (UTF-8 text for error bodies, arbitrary bytes for
/// success bodies).
#[derive(Debug, Clone, PartialEq)]
pub struct Response {
    pub response_type: ResponseType,
    pub message_length: u32,
    pub data: Vec<u8>,
}

/// What decoding a response buffer yields: the tag and the body bytes (the
/// whole remainder of the buffer), or the error that rejected the buffer.
pub open spec fn spec_parse_response(b: Seq<u8>) -> Result<(ResponseType, Seq<u8>), ProtocolError> {
    if b.len() < 8 {
        Err(ProtocolError::TooShort)
    } else {
        match spec_parse_tag(b.subrange(0, 4)) {
            Ok(t) => Ok((t, b.skip(8))),
            Err(e) => Err(e),
        }
    }
}

impl Response {
    /// The length field counts exactly the body bytes.
    pub open spec fn wf(self) -> bool {
        self.message_length == self.data@.len()
    }

    /// The wire bytes of the envelope: tag, big-endian length, body.
    pub open spec fn spec_bytes(self) -> Seq<u8> {
        spec_tag_bytes(self.response_type) + spec_u32_to_be_bytes(self.message_length) + self.data@
    }

    /// Builds a well-formed response of the given kind around a body.
    pub fn new(response_type: ResponseType, data: Vec<u8>) -> (r: Response)
        requires
            data@.len() <= u32::MAX,
        ensures
            r.response_type == response_type,
            r.data == data,
            r.wf(),
    {
        let message_length = data.len() as u32;
        Response { response_type, message_length, data }
    }

    /// A success response carrying the given body.
    pub fn success(data: Vec<u8>) -> (r: Response)
        requires
            data@.len() <= u32::MAX,
        ensures
            r.response_type is SUCC,
            r.data == data,
            r.wf(),
    {
        Response::new(ResponseType::SUCC, data)
    }

    /// A success response with an empty body.
    pub fn empty() -> (r: Response)
        ensures
            r.response_type is SUCC,
            r.data@ == Seq::<u8>::empty(),
            r.wf(),
    {
        Response::new(ResponseType::SUCC, Vec::new())
    }

    /// An error response whose body is the UTF-8 encoding of the message.
    pub fn error(error_message: String) -> (r: Response)
        requires
            encode_utf8(error_message@).len() <= u32::MAX,
        ensures
            r.response_type is ERR,
            r.data@ == encode_utf8(error_message@),
            r.wf(),
    {
        let data = error_message.as_str().as_bytes_vec();
        Response::new(ResponseType::ERR, data)
    }

    /// The body as text: `(success text, error text)` by this response's kind.
    /// The side matching the kind is present exactly when the body is valid
    /// UTF-8; the other side is always absent.
    pub fn as_string(&self) -> (r: (Option<&str>, Option<&str>))
        ensures
            self.response_type is SUCC ==> r.1 is None && (r.0 is Some <==> valid_utf8(
                self.data@,
            )) && (r.0 matches Some(s) ==> s.spec_bytes() == self.data@),
            self.response_type is ERR ==> r.0 is None && (r.1 is Some <==> valid_utf8(self.data@))
                && (r.1 matches Some(s) ==> s.spec_bytes() == self.data@),
    {
        match self.response_type {
            ResponseType::SUCC => (str_from_utf8(self.data.as_slice()), None),
            ResponseType::ERR => (None, str_from_utf8(self.data.as_slice())),
        }
    }

    /// The body as text of a success response; absent for error responses and
    /// for bodies that are not valid UTF-8.
    pub fn success_as_string(&self) -> (r: Option<&str>)
        ensures
            self.response_type is ERR ==> r is None,
            self.response_type is SUCC ==> (r is Some <==> valid_utf8(self.data@)) && (
            r matches Some(s) ==> s.spec_bytes() == self.data@),
    {
        match self.response_type {
            ResponseType::SUCC => str_from_utf8(self.data.as_slice()),
            ResponseType::ERR => None,
        }
    }

    /// The body as text of an error response; absent for success responses
    /// and for bodies that are not valid UTF-8.
    pub fn error_as_string(&self) -> (r: Option<&str>)
        ensures
            self.response_type is SUCC ==> r is None,
            self.response_type is ERR ==> (r is Some <==> valid_utf8(self.data@)) && (
            r matches Some(s) ==> s.spec_bytes() == self.data@),
    {
        match self.response_type {
            ResponseType::ERR => str_from_utf8(self.data.as_slice()),
            ResponseType::SUCC => None,
        }
    }

    /// Encodes this envelope for transmission.
    pub fn to_bytes(&self) -> (r: Vec<u8>)
        ensures
            r@ == self.spec_bytes(),
    {
        let mut serialized = self.response_type.to_bytes();
        let length_bytes = transform_u32_to_array_of_u8(self.message_length);
        let mut length_vec = slice_to_vec(length_bytes.as_slice());
        serialized.append(&mut length_vec);
        let mut body = slice_to_vec(self.data.as_slice());
        serialized.append(&mut body);
        proof {
            assert(serialized@ =~= self.spec_bytes());
        }
        serialized
    }

    /// Assembles a response from a decoded tag and the body bytes that
    /// followed it; rejects unknown tags.
    pub fn from_parts(tag: &[u8; 4], body: Vec<u8>) -> (r: Result<Response, ProtocolError>)
        requires
            body@.len() <= u32::MAX,
        ensures
            (spec_parse_tag(tag@) matches Ok(t) ==> r matches Ok(resp) && resp.response_type == t
                && resp.data == body && resp.wf()),
            (spec_parse_tag(tag@) matches Err(e) ==> r matches Err(e2) && e2 == e),
    {
        match ResponseType::from_tag(tag) {
            Ok(t) => Ok(Response::new(t, body)),
            Err(e) => Err(e),
        }
    }

    /// Decodes a response from a buffer holding one whole envelope: the first
    /// 4 bytes are the tag, the next 4 the length field, and everything after
    /// them is taken as the body.
    pub fn from_bytes(data: &Vec<u8>) -> (r: Result<Response, ProtocolError>)
        requires
            data@.len() <= 8 + u32::MAX,
        ensures
            r is Ok <==> spec_parse_response(data@) is Ok,
            (spec_parse_response(data@) matches Ok(p) ==> r matches Ok(resp)
                && resp.response_type == p.0 && resp.data@ == p.1 && resp.wf()),
            (spec_parse_response(data@) matches Err(e) ==> r matches Err(e2) && e2 == e),
    {
        if data.len() >= 8 {
            let tag: [u8; 4] = bytes_to_array(slice_subrange(data.as_slice(), 0, 4));
            let body = slice_to_vec(slice_subrange(data.as_slice(), 8, data.len()));
            proof {
                assert(body@ =~= data@.skip(8));
            }
            Response::from_parts(&tag, body)
        } else {
            Err(ProtocolError::TooShort)
        }
    }
}

/// Round trip: the wire encoding of any well-formed response decodes back to
/// its own tag and body.
pub proof fn lemma_response_round_trip(r: Response)
    requires
        r.wf(),
    ensures
        r.spec_bytes().len() == 8 + r.data@.len(),
        spec_parse_response(r.spec_bytes()) == Ok::<(ResponseType, Seq<u8>), ProtocolError>(
            (r.response_type, r.data@),
        ),
{
    let b = r.spec_bytes();
    assert(b.subrange(0, 4) =~= spec_tag_bytes(r.response_type));
    assert(b.skip(8) =~= r.data@);
    assert(spec_tag_bytes(ResponseType::SUCC)[0] != spec_tag_bytes(ResponseType::ERR)[0]);
    assert(spec_parse_tag(b.subrange(0, 4)) == Ok::<ResponseType, ProtocolError>(r.response_type));
}

/// A success response built around a body decodes from its own encoding to a
/// success carrying exactly that body.
pub proof fn lemma_success_body_preserved(r: Response)
    requires
        r.wf(),
        r.response_type is SUCC,
    ensures
        spec_parse_response(r.spec_bytes()) == Ok::<(ResponseType, Seq<u8>), ProtocolError>(
            (ResponseType::SUCC, r.data@),
        ),
{
    lemma_response_round_trip(r);
}

/// An error response built from a message decodes from its own encoding to an
/// error whose body is valid UTF-8 and reads back as exactly that message.
pub proof fn lemma_error_body_preserved(r: Response, msg: Seq<char>)
    requires
        r.wf(),
        r.response_type is ERR,
        r.data@ == encode_utf8(msg),
    ensures
        spec_parse_response(r.spec_bytes()) matches Ok(p) && p.0 is ERR && valid_utf8(p.1)
            && decode_utf8(p.1) == msg,
{
    lemma_response_round_trip(r);
    lemma_error_message_preserved(msg);
}

/// An error message survives the trip onto the wire and back: the UTF-8 bytes
/// that an error response carries are valid UTF-8 and decode to exactly the
/// original text.
pub proof fn lemma_error_message_preserved(msg: Seq<char>)
    ensures
        valid_utf8(encode_utf8(msg)),
        decode_utf8(encode_utf8(msg)) == msg,
{
    encode_utf8_valid_utf8(msg);
    encode_utf8_decode_utf8(msg);
}

/// Relies on `str::from_utf8`: it succeeds exactly on valid UTF-8 input, and
/// the returned string slice views those same bytes.
#[verifier::external_body]
fn str_from_utf8(bytes: &[u8]) -> (r: Option<&str>)
    ensures
        r is Some <==> valid_utf8(bytes@),
        r matches Some(s) ==> s.spec_bytes() == bytes@,
{
    core::str::from_utf8(bytes).ok()
}

} // verus!
