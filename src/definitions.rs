//! Opcodes, the frame (`GridBlock`) and its wire format, and the grammar of
//! GRID remotes.

use vstd::prelude::*;
use vstd::string::{StrSliceExecFns, StringSliceAdditionalSpecFns};

use crate::endian::{
    be_bytes, be_value, lemma_be_bytes_len, lemma_be_bytes_of_value, lemma_be_value_bound, lemma_be_round_trip, lemma_pow256_16, push_u128_be,
    read_u128_be,
};
use crate::error::GridError;

verus! {

/// Port used when a remote names none.
pub const GRID_DEFAULT_PORT: u16 = 7500;

/// Bytes in a frame header: the opcode and three sixteen-byte sizes.
pub const HEADER_SIZE: usize = 49;

/// Opcodes of requests.
#[derive(Debug, Clone, Copy, PartialEq, Eq, Structural)]
pub enum GridRequestCode {
    /// Get the resource at the path.
    GET,
    /// Put the payload.
    PUT,
    /// Set the resource at the path.
    SET,
    /// The client reports an error.
    CER,
}

/// Opcodes of responses.
#[derive(Debug, Clone, Copy, PartialEq, Eq, Structural)]
pub enum GridResponseCode {
    /// The request succeeded.
    ROK,
    /// General error.
    GER,
    /// The requested resource was not found.
    NOF,
    /// The remote is busy.
    BSY,
}

/// An opcode: a request code or a response code.
#[derive(Debug, Clone, Copy, PartialEq, Eq, Structural)]
pub enum GridCode {
    Response(GridResponseCode),
    Request(GridRequestCode),
}

/// The byte of a request code: the low half of the byte space.
pub open spec fn request_byte(c: GridRequestCode) -> u8 {
    match c {
        GridRequestCode::GET => 0,
        GridRequestCode::PUT => 1,
        GridRequestCode::SET => 2,
        GridRequestCode::CER => 3,
    }
}

/// The byte of a response code: the high half of the byte space.
pub open spec fn response_byte(c: GridResponseCode) -> u8 {
    match c {
        GridResponseCode::ROK => 128,
        GridResponseCode::GER => 129,
        GridResponseCode::NOF => 130,
        GridResponseCode::BSY => 131,
    }
}

/// The byte that stands for an opcode on the wire.
pub open spec fn code_byte(c: GridCode) -> u8 {
    match c {
        GridCode::Request(r) => request_byte(r),
        GridCode::Response(r) => response_byte(r),
    }
}

/// The opcode that a byte stands for, if any.
pub open spec fn code_of(b: u8) -> Option<GridCode> {
    if b == 0 {
        Some(GridCode::Request(GridRequestCode::GET))
    } else if b == 1 {
        Some(GridCode::Request(GridRequestCode::PUT))
    } else if b == 2 {
        Some(GridCode::Request(GridRequestCode::SET))
    } else if b == 3 {
        Some(GridCode::Request(GridRequestCode::CER))
    } else if b == 128 {
        Some(GridCode::Response(GridResponseCode::ROK))
    } else if b == 129 {
        Some(GridCode::Response(GridResponseCode::GER))
    } else if b == 130 {
        Some(GridCode::Response(GridResponseCode::NOF))
    } else if b == 131 {
        Some(GridCode::Response(GridResponseCode::BSY))
    } else {
        None
    }
}

impl From<GridRequestCode> for GridCode {
    fn from(c: GridRequestCode) -> (r: Self) {
        GridCode::Request(c)
    }
}

impl vstd::std_specs::convert::FromSpecImpl<GridRequestCode> for GridCode {
    open spec fn obeys_from_spec() -> bool {
        true
    }

    open spec fn from_spec(c: GridRequestCode) -> Self {
        GridCode::Request(c)
    }
}

impl From<GridResponseCode> for GridCode {
    fn from(c: GridResponseCode) -> (r: Self) {
        GridCode::Response(c)
    }
}

impl vstd::std_specs::convert::FromSpecImpl<GridResponseCode> for GridCode {
    open spec fn obeys_from_spec() -> bool {
        true
    }

    open spec fn from_spec(c: GridResponseCode) -> Self {
        GridCode::Response(c)
    }
}

impl GridCode {
    /// The byte that stands for this code on the wire.
    pub fn to_byte(&self) -> (r: u8)
        ensures
            r == code_byte(*self),
    {
        match self {
            GridCode::Request(GridRequestCode::GET) => 0,
            GridCode::Request(GridRequestCode::PUT) => 1,
            GridCode::Request(GridRequestCode::SET) => 2,
            GridCode::Request(GridRequestCode::CER) => 3,
            GridCode::Response(GridResponseCode::ROK) => 128,
            GridCode::Response(GridResponseCode::GER) => 129,
            GridCode::Response(GridResponseCode::NOF) => 130,
            GridCode::Response(GridResponseCode::BSY) => 131,
        }
    }

    /// The code that byte `b` stands for; bytes below 128 are read as
    /// request codes, the others as response codes.
    pub fn from_byte(b: u8) -> (r: Result<Self, GridError>)
        ensures
            r == (match code_of(b) {
                Some(c) => Ok(c),
                None => Err(GridError::InvalidOpcode { byte: b }),
            }),
    {
        if b < 128 {
            match b {
                0 => Ok(GridCode::Request(GridRequestCode::GET)),
                1 => Ok(GridCode::Request(GridRequestCode::PUT)),
                2 => Ok(GridCode::Request(GridRequestCode::SET)),
                3 => Ok(GridCode::Request(GridRequestCode::CER)),
                _ => Err(GridError::InvalidOpcode { byte: b }),
            }
        } else {
            match b {
                128 => Ok(GridCode::Response(GridResponseCode::ROK)),
                131 => Ok(GridCode::Response(GridResponseCode::BSY)),
                130 => Ok(GridCode::Response(GridResponseCode::NOF)),
                129 => Ok(GridCode::Response(GridResponseCode::GER)),
                _ => Err(GridError::InvalidOpcode { byte: b }),
            }
        }
    }
}

/// Every byte stands for at most one code: the request codes are exactly the
/// bytes `0..=3`, the response codes exactly `128..=131`, every other byte
/// is invalid, and a code read from a byte is written back as that byte.
pub proof fn lemma_code_classification(b: u8)
    ensures
        (code_of(b) matches Some(GridCode::Request(_))) <==> b <= 3,
        (code_of(b) matches Some(GridCode::Response(_))) <==> 128 <= b <= 131,
        code_of(b) is None <==> (4 <= b <= 127 || 132 <= b),
        code_of(b) matches Some(c) ==> code_byte(c) == b,
{
}

/// Writing a code as a byte and reading it back gives the code.
pub proof fn lemma_code_round_trip(c: GridCode)
    ensures
        code_of(code_byte(c)) == Some(c),
        (c is Request) <==> code_byte(c) < 128,
{
}

/// What a frame holds, as mathematical values.
pub struct BlockModel {
    pub opcode: GridCode,
    pub path_size: u128,
    pub metadata_size: u128,
    pub reserved: u128,
    pub payload: Seq<u8>,
}

/// A frame whose payload is as long as its two declared sizes together.
pub open spec fn well_sized(m: BlockModel) -> bool {
    m.payload.len() == m.path_size + m.metadata_size
}

/// The bytes of a frame on the wire: the opcode byte, the path size, the
/// metadata size and the reserved field as sixteen big-endian bytes each,
/// then the payload.
pub open spec fn encode(m: BlockModel) -> Seq<u8> {
    seq![code_byte(m.opcode)] + be_bytes(m.path_size as nat, 16) + be_bytes(
        m.metadata_size as nat,
        16,
    ) + be_bytes(m.reserved as nat, 16) + m.payload
}

/// The frame that a byte string holds, or why it holds none.
pub open spec fn decode(s: Seq<u8>) -> Result<BlockModel, GridError> {
    if s.len() < HEADER_SIZE {
        Err(GridError::HeaderTooShort { got: s.len() as usize })
    } else {
        match code_of(s[0]) {
            None => Err(GridError::InvalidOpcode { byte: s[0] }),
            Some(opcode) => {
                let path_size = be_value(s.subrange(1, 17));
                let metadata_size = be_value(s.subrange(17, 33));
                let reserved = be_value(s.subrange(33, 49));
                if s.len() != HEADER_SIZE + path_size + metadata_size {
                    Err(
                        GridError::SizeMismatch {
                            path_size: path_size as u128,
                            metadata_size: metadata_size as u128,
                            got: s.len() as usize,
                        },
                    )
                } else {
                    Ok(
                        BlockModel {
                            opcode,
                            path_size: path_size as u128,
                            metadata_size: metadata_size as u128,
                            reserved: reserved as u128,
                            payload: s.subrange(HEADER_SIZE as int, s.len() as int),
                        },
                    )
                }
            },
        }
    }
}

/// Reading back the bytes of a frame whose payload is as long as its
/// declared sizes gives that frame, reserved field included.
pub proof fn lemma_frame_round_trip(m: BlockModel)
    requires
        well_sized(m),
    ensures
        decode(encode(m)) == Ok::<BlockModel, GridError>(m),
{
    let s = encode(m);
    let p = be_bytes(m.path_size as nat, 16);
    let d = be_bytes(m.metadata_size as nat, 16);
    let r = be_bytes(m.reserved as nat, 16);
    lemma_be_bytes_len(m.path_size as nat, 16);
    lemma_be_bytes_len(m.metadata_size as nat, 16);
    lemma_be_bytes_len(m.reserved as nat, 16);
    lemma_pow256_16();
    lemma_be_round_trip(m.path_size as nat, 16);
    lemma_be_round_trip(m.metadata_size as nat, 16);
    lemma_be_round_trip(m.reserved as nat, 16);
    lemma_code_round_trip(m.opcode);
    assert(s[0] == code_byte(m.opcode));
    assert(s.subrange(1, 17) == p);
    assert(s.subrange(17, 33) == d);
    assert(s.subrange(33, 49) == r);
    assert(s.subrange(49, s.len() as int) == m.payload);
}

/// Framing is exact: a byte string that holds a frame is that frame's bytes,
/// and the frame's payload is as long as its declared sizes.
pub proof fn lemma_decoded_is_encoding(s: Seq<u8>)
    requires
        decode(s) is Ok,
    ensures
        decode(s) matches Ok(m) && well_sized(m) && encode(m) == s,
{
    let m = decode(s)->Ok_0;
    lemma_be_value_bound(s.subrange(1, 17));
    lemma_be_value_bound(s.subrange(17, 33));
    lemma_be_value_bound(s.subrange(33, 49));
    lemma_pow256_16();
    lemma_be_bytes_of_value(s.subrange(1, 17));
    lemma_be_bytes_of_value(s.subrange(17, 33));
    lemma_be_bytes_of_value(s.subrange(33, 49));
    lemma_code_classification(s[0]);
    assert(encode(m) =~= s);
}

/// A frame built from an opcode, a path and a body, written to bytes and read
/// back, has that opcode, a path size and a metadata size that are the
/// lengths of the path and of the body, and their concatenation as payload.
pub proof fn lemma_built_round_trip(opcode: GridCode, path: Seq<u8>, body: Seq<u8>)
    requires
        path.len() + body.len() <= usize::MAX,
    ensures
        decode(encode(built(opcode, path, body))) == Ok::<BlockModel, GridError>(
            built(opcode, path, body),
        ),
        decode(encode(built(opcode, path, body))) matches Ok(m) && m.opcode == opcode
            && m.path_size == path.len() && m.metadata_size == body.len() && m.payload == path
            + body,
{
    lemma_frame_round_trip(built(opcode, path, body));
}

/// The bytes of an optional path.
pub open spec fn path_bytes(path: Option<&str>) -> Seq<u8> {
    match path {
        Some(p) => p.spec_bytes(),
        None => Seq::empty(),
    }
}

/// The frame that `GridBlock::new` builds from an opcode, a path and a body.
pub open spec fn built(opcode: GridCode, path: Seq<u8>, body: Seq<u8>) -> BlockModel {
    BlockModel {
        opcode,
        path_size: path.len() as u128,
        metadata_size: body.len() as u128,
        reserved: 0,
        payload: path + body,
    }
}

/// The unit of exchange: an opcode, the sizes of the path and of the
/// metadata that the payload holds in that order, and a reserved field.
#[derive(Debug)]
pub struct GridBlock {
    opcode: GridCode,
    path_size: u128,
    metadata_size: u128,
    reserved: u128,
    payload: Vec<u8>,
}

impl View for GridBlock {
    type V = BlockModel;

    closed spec fn view(&self) -> BlockModel {
        BlockModel {
            opcode: self.opcode,
            path_size: self.path_size,
            metadata_size: self.metadata_size,
            reserved: self.reserved,
            payload: self.payload@,
        }
    }
}

impl GridBlock {
    /// Builds a frame whose payload is the path's bytes, if there is a path,
    /// followed by the body, which is moved out of `payload`.
    pub fn new(opcode: GridCode, path: Option<&str>, payload: &mut Vec<u8>) -> (r: Result<
        Self,
        GridError,
    >)
        ensures
            r matches Ok(b) && b@ == built(opcode, path_bytes(path), old(payload)@),
            final(payload)@ == Seq::<u8>::empty(),
    {
        let mut request_payload: Vec<u8> = Vec::new();
        let path_size: usize = match path {
            Some(a) => {
                let mut bytes = a.as_bytes_vec();
                let n = bytes.len();
                request_payload.append(&mut bytes);
                n
            },
            None => 0,
        };
        let metadata_size: usize = payload.len();
        request_payload.append(payload);
        Ok(
            GridBlock {
                opcode,
                path_size: path_size as u128,
                metadata_size: metadata_size as u128,
                reserved: 0,
                payload: request_payload,
            },
        )
    }

    /// Reads a frame from the bytes of exactly one frame.
    pub fn from_bytes(bytes: Vec<u8>) -> (r: Result<Self, GridError>)
        ensures
            bytes@.len() < HEADER_SIZE ==> r == Err::<Self, GridError>(
                GridError::HeaderTooShort { got: bytes@.len() as usize },
            ),
            match decode(bytes@) {
                Ok(m) => r matches Ok(b) && b@ == m,
                Err(e) => r == Err::<Self, GridError>(e),
            },
    {
        let mut bytes = bytes;
        let n: usize = bytes.len();
        if n < HEADER_SIZE {
            return Err(GridError::HeaderTooShort { got: n });
        }
        let opcode = match GridCode::from_byte(bytes[0]) {
            Ok(c) => c,
            Err(e) => return Err(e),
        };
        let path_size = read_u128_be(&bytes, 1);
        let metadata_size = read_u128_be(&bytes, 17);
        let reserved = read_u128_be(&bytes, 33);
        let body_len: u128 = (n - HEADER_SIZE) as u128;
        if path_size > body_len || metadata_size != body_len - path_size {
            return Err(GridError::SizeMismatch { path_size, metadata_size, got: n });
        }
        let payload = bytes.split_off(HEADER_SIZE);
        Ok(GridBlock { opcode, path_size, metadata_size, reserved, payload })
    }

    /// The opcode.
    pub fn opcode(&self) -> (r: GridCode)
        ensures
            r == self@.opcode,
    {
        self.opcode
    }

    /// The number of path bytes at the start of the payload.
    pub fn path_size(&self) -> (r: u128)
        ensures
            r == self@.path_size,
    {
        self.path_size
    }

    /// The number of metadata bytes after the path.
    pub fn metadata_size(&self) -> (r: u128)
        ensures
            r == self@.metadata_size,
    {
        self.metadata_size
    }

    /// The reserved field, uninterpreted.
    pub fn reserved(&self) -> (r: u128)
        ensures
            r == self@.reserved,
    {
        self.reserved
    }

    /// The payload: the path's bytes, then the metadata.
    pub fn payload(&self) -> (r: &Vec<u8>)
        ensures
            r@ == self@.payload,
    {
        &self.payload
    }

    /// The frame's bytes on the wire. The payload is moved into them: the
    /// frame keeps its header and is left with an empty payload.
    pub fn serialize(&mut self) -> (r: Vec<u8>)
        ensures
            r@ == encode(old(self)@),
            final(self)@ == (BlockModel { payload: Seq::empty(), ..old(self)@ }),
    {
        let mut buffer: Vec<u8> = Vec::new();
        buffer.push(self.opcode.to_byte());
        push_u128_be(&mut buffer, self.path_size);
        push_u128_be(&mut buffer, self.metadata_size);
        push_u128_be(&mut buffer, self.reserved);
        buffer.append(&mut self.payload);
        buffer
    }
}

/// Whether a remote names a host by domain name or by literal address.
#[derive(Debug, PartialEq, Eq, Structural)]
pub enum ConnectionType {
    Address,
    Domain,
}

/// A decimal digit.
pub open spec fn is_digit(c: char) -> bool {
    '0' <= c && c <= '9'
}

/// The value of a string of decimal digits.
pub open spec fn decimal_value(s: Seq<char>) -> nat
    decreases s.len(),
{
    if s.len() == 0 {
        0
    } else {
        decimal_value(s.drop_last()) * 10 + ((s.last() as u32) - ('0' as u32)) as nat
    }
}

/// The digits of a port: the text without one leading `+`, if it has one.
pub open spec fn port_digits(s: Seq<char>) -> Seq<char> {
    if s.len() > 0 && s[0] == '+' {
        s.subrange(1, s.len() as int)
    } else {
        s
    }
}

/// The port that a text holds: one or more decimal digits, after an
/// optional `+`, whose value fits in sixteen bits.
pub open spec fn port_value(s: Seq<char>) -> Option<u16> {
    let d = port_digits(s);
    if d.len() > 0 && (forall|i: int| 0 <= i < d.len() ==> is_digit(#[trigger] d[i]))
        && decimal_value(d) <= u16::MAX {
        Some(decimal_value(d) as u16)
    } else {
        None
    }
}

/// The number of `:` in a text.
pub open spec fn colon_count(s: Seq<char>) -> nat
    decreases s.len(),
{
    if s.len() == 0 {
        0
    } else {
        colon_count(s.drop_last()) + if s.last() == ':' {
            1nat
        } else {
            0nat
        }
    }
}

/// The position of the first `:` in a text, or `-1` if it holds none.
pub open spec fn first_colon(s: Seq<char>) -> int
    decreases s.len(),
{
    if s.len() == 0 {
        -1
    } else if colon_count(s.drop_last()) > 0 {
        first_colon(s.drop_last())
    } else if s.last() == ':' {
        s.len() - 1
    } else {
        -1
    }
}

/// The remote starts with a GRID sigil: `grid!` or `grid.`.
pub open spec fn has_sigil(s: Seq<char>) -> bool {
    s.len() >= 5 && s[0] == 'g' && s[1] == 'r' && s[2] == 'i' && s[3] == 'd' && (s[4] == '!'
        || s[4] == '.')
}

/// The target that a remote names: `grid!` before a domain name, `grid.`
/// before an address, then the host and, after one `:`, the port, which is
/// `GRID_DEFAULT_PORT` when there is no `:`.
pub open spec fn parse_remote(s: Seq<char>) -> Result<(ConnectionType, Seq<char>, u16), GridError> {
    if !has_sigil(s) {
        Err(GridError::UnknownScheme)
    } else {
        let kind = if s[4] == '!' {
            ConnectionType::Domain
        } else {
            ConnectionType::Address
        };
        let rest = s.subrange(5, s.len() as int);
        if colon_count(rest) == 0 {
            Ok((kind, rest, GRID_DEFAULT_PORT))
        } else if colon_count(rest) > 1 {
            Err(GridError::MultiplePorts)
        } else {
            let i = first_colon(rest);
            match port_value(rest.subrange(i + 1, rest.len() as int)) {
                Some(port) => Ok((kind, rest.subrange(0, i), port)),
                None => Err(GridError::InvalidPort),
            }
        }
    }
}

/// A parsed remote given with its host as a `String`, held against the
/// result over character sequences.
pub open spec fn remote_matches(
    r: Result<(ConnectionType, String, u16), GridError>,
    m: Result<(ConnectionType, Seq<char>, u16), GridError>,
) -> bool {
    match m {
        Ok((kind, host, port)) => r matches Ok(t) && t.0 == kind && t.1@ == host && t.2 == port,
        Err(e) => r == Err::<(ConnectionType, String, u16), GridError>(e),
    }
}

proof fn lemma_decimal_prefix(s: Seq<char>, k: int)
    requires
        0 <= k <= s.len(),
        forall|i: int| 0 <= i < s.len() ==> is_digit(#[trigger] s[i]),
    ensures
        decimal_value(s.subrange(0, k)) <= decimal_value(s),
    decreases s.len(),
{
    if k < s.len() {
        let t = s.drop_last();
        assert(t.subrange(0, k) == s.subrange(0, k));
        lemma_decimal_prefix(t, k);
    } else {
        assert(s.subrange(0, k) == s);
    }
}

/// The port that `text` holds, read as `u16::from_str` reads it.
pub fn parse_port(text: &str) -> (r: Option<u16>)
    ensures
        r == port_value(text@),
{
    let n: usize = text.unicode_len();
    let mut start: usize = 0;
    if n > 0 && text.get_char(0) == '+' {
        start = 1;
    }
    let ghost d = port_digits(text@);
    assert(d == text@.subrange(start as int, n as int));
    if start == n {
        return None;
    }
    let mut value: u32 = 0;
    let mut i: usize = start;
    while i < n
        invariant
            start <= i <= n,
            n == text@.len(),
            d == text@.subrange(start as int, n as int),
            d == port_digits(text@),
            value <= u16::MAX,
            value as nat == decimal_value(d.subrange(0, i - start)),
            forall|j: int| 0 <= j < i - start ==> is_digit(#[trigger] d[j]),
        decreases n - i,
    {
        let c = text.get_char(i);
        assert(d[i - start] == c);
        if !('0' <= c && c <= '9') {
            assert(!is_digit(d[i - start]));
            return None;
        }
        proof {
            assert(d.subrange(0, i - start + 1).drop_last() == d.subrange(0, i - start));
        }
        value = value * 10 + ((c as u32) - ('0' as u32));
        i = i + 1;
        assert(value as nat == decimal_value(d.subrange(0, i - start)));
        if value > 65535 {
            proof {
                if forall|j: int| 0 <= j < d.len() ==> is_digit(#[trigger] d[j]) {
                    lemma_decimal_prefix(d, i - start);
                }
            }
            return None;
        }
    }
    assert(d.subrange(0, n - start) == d);
    Some(value as u16)
}

proof fn lemma_colon_step(s: Seq<char>, k: int)
    requires
        0 <= k < s.len(),
    ensures
        colon_count(s.subrange(0, k + 1)) == colon_count(s.subrange(0, k)) + if s[k] == ':' {
            1nat
        } else {
            0nat
        },
        first_colon(s.subrange(0, k + 1)) == if colon_count(s.subrange(0, k)) > 0 {
            first_colon(s.subrange(0, k))
        } else if s[k] == ':' {
            k
        } else {
            -1
        },
{
    assert(s.subrange(0, k + 1).drop_last() == s.subrange(0, k));
}

/// How many `:` the remote holds after its five-character sigil, and the
/// position of the first one (`n` when there is none).
fn colons_after_sigil(remote: &str, n: usize) -> (r: (usize, usize))
    requires
        5 <= n,
        n == remote@.len(),
    ensures
        r.0 as nat == colon_count(remote@.subrange(5, n as int)),
        r.0 == 0 ==> r.1 == n,
        r.0 > 0 ==> r.1 - 5 == first_colon(remote@.subrange(5, n as int)) && 5 <= r.1 < n,
{
    let ghost rest = remote@.subrange(5, n as int);
    let mut colons: usize = 0;
    let mut first: usize = n;
    let mut i: usize = 5;
    while i < n
        invariant
            5 <= i <= n,
            n == remote@.len(),
            rest == remote@.subrange(5, n as int),
            colons as nat == colon_count(rest.subrange(0, i - 5)),
            colons <= i - 5,
            colons == 0 ==> first == n,
            colons > 0 ==> first - 5 == first_colon(rest.subrange(0, i - 5)) && 5 <= first < i,
        decreases n - i,
    {
        let c = remote.get_char(i);
        proof {
            lemma_colon_step(rest, i - 5);
            assert(rest[i - 5] == c);
        }
        if c == ':' {
            if colons == 0 {
                first = i;
            }
            colons = colons + 1;
        }
        i = i + 1;
    }
    assert(rest.subrange(0, n - 5) == rest);
    (colons, first)
}

/// Reads a remote of the form `grid!host[:port]` or `grid.host[:port]`
/// into its kind, its host and its port.
pub fn string_to_domain(remote: &str) -> (r: Result<(ConnectionType, String, u16), GridError>)
    ensures
        remote_matches(r, parse_remote(remote@)),
{
    let n: usize = remote.unicode_len();
    if n < 5 || remote.get_char(0) != 'g' || remote.get_char(1) != 'r' || remote.get_char(2) != 'i'
        || remote.get_char(3) != 'd' {
        return Err(GridError::UnknownScheme);
    }
    let sigil = remote.get_char(4);
    let kind = if sigil == '!' {
        ConnectionType::Domain
    } else if sigil == '.' {
        ConnectionType::Address
    } else {
        return Err(GridError::UnknownScheme);
    };
    let ghost rest = remote@.subrange(5, n as int);
    let (colons, first) = colons_after_sigil(remote, n);
    if colons == 0 {
        let host = remote.substring_char(5, n).to_owned();
        return Ok((kind, host, GRID_DEFAULT_PORT));
    }
    if colons > 1 {
        return Err(GridError::MultiplePorts);
    }
    let host = remote.substring_char(5, first).to_owned();
    assert(host@ == rest.subrange(0, first - 5));
    let port_text = remote.substring_char(first + 1, n);
    assert(port_text@ == rest.subrange(first - 5 + 1, rest.len() as int));
    match parse_port(port_text) {
        Some(port) => Ok((kind, host, port)),
        None => Err(GridError::InvalidPort),
    }
}

} // verus!
