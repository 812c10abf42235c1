//! STUN message header encoding (RFC 5389, section 6).
use vstd::prelude::*;

verus! {

/// The magic cookie that every STUN header carries in bytes 4 to 7.
pub const MAGIC_COOKIE: u32 = 0x2112A442;

/// The number of bytes in a STUN header.
pub const HEADER_LEN: usize = 20;

/// The number of bytes in a transaction id.
pub const TRANSACTION_ID_LEN: usize = 12;

/// The two bytes of `x`, most significant first.
pub open spec fn be16(x: u16) -> Seq<u8> {
    seq![(x / 256) as u8, (x % 256) as u8]
}

/// The four bytes of `x`, most significant first.
pub open spec fn be32(x: u32) -> Seq<u8> {
    seq![
        (x / 0x100_0000) as u8,
        (x / 0x1_0000 % 256) as u8,
        (x / 256 % 256) as u8,
        (x % 256) as u8,
    ]
}

/// The 16-bit message type field for a 12-bit method code and a 2-bit class
/// code: method bits 0-3 at bits 0-3, class bit 0 at bit 4, method bits 4-6
/// at bits 5-7, class bit 1 at bit 8, method bits 7-11 at bits 9-13.
pub open spec fn msg_type_code(method: u16, class: u8) -> int {
    method % 16 + 16 * (class % 2) + 32 * (method / 16 % 8) + 256 * (class / 2) + 512 * (method
        / 128)
}

/// A STUN method: a 12-bit code.
#[derive(Clone, Copy, Debug, PartialEq, Eq, Structural)]
pub struct Method(u16);

impl Method {
    /// The method's code.
    pub closed spec fn code(&self) -> u16 {
        self.0
    }

    /// A method code fits in twelve bits.
    #[verifier::type_invariant]
    spec fn fits(&self) -> bool {
        self.0 < 0x1000
    }

    /// The Binding method, code 0x001.
    pub fn binding() -> (r: Method)
        ensures
            r.code() == 1,
    {
        Method(0x001)
    }

    /// The method with the given code; `None` where the code does not fit in
    /// twelve bits.
    pub fn from_code(code: u16) -> (r: Option<Method>)
        ensures
            code < 0x1000 ==> r.is_some() && r.unwrap().code() == code,
            code >= 0x1000 ==> r.is_none(),
    {
        if code < 0x1000 {
            Some(Method(code))
        } else {
            None
        }
    }
}

/// A STUN message class.
#[derive(Clone, Copy, Debug, PartialEq, Eq, Structural)]
pub enum Class {
    Request,
    Indication,
    SuccessResponse,
    ErrorResponse,
}

impl Class {
    /// The class's 2-bit code.
    pub open spec fn code(&self) -> u8 {
        match self {
            Class::Request => 0b00,
            Class::Indication => 0b01,
            Class::SuccessResponse => 0b10,
            Class::ErrorResponse => 0b11,
        }
    }

    /// The class's 2-bit code.
    pub fn to_code(&self) -> (r: u8)
        ensures
            r == self.code(),
    {
        match self {
            Class::Request => 0b00,
            Class::Indication => 0b01,
            Class::SuccessResponse => 0b10,
            Class::ErrorResponse => 0b11,
        }
    }
}


/// A message type: a method together with a class.
pub struct MsgType {
    method: Method,
    class: Class,
}

impl MsgType {
    /// The method.
    pub closed spec fn method(&self) -> Method {
        self.method
    }

    /// The class.
    pub closed spec fn class(&self) -> Class {
        self.class
    }

    /// The 16-bit message type field.
    pub open spec fn type_code(&self) -> int {
        msg_type_code(self.method().code(), self.class().code())
    }

    pub fn new(method: Method, class: Class) -> (r: MsgType)
        ensures
            r.method() == method,
            r.class() == class,
    {
        MsgType { method, class }
    }

    /// The message type field, as two big-endian bytes.
    pub fn to_bytes(&self) -> (r: Vec<u8>)
        ensures
            self.method().code() < 0x1000,
            0 <= self.type_code() < 0x1_0000,
            r@ == be16(self.type_code() as u16),
    {
        proof {
            use_type_invariant(&self.method);
        }
        let m: u16 = self.method.0;
        let c: u16 = self.class.to_code() as u16;
        let t: u16 = ((m & 0x0F80) << 2) | ((m & 0x0070) << 1) | (m & 0x000F) | ((c & 2) << 7) | ((c
            & 1) << 4);
        proof {
            lemma_msg_type_bits(m, c);
        }
        vec![(t / 256) as u8, (t % 256) as u8]
    }
}

/// The twelve bytes that identify a STUN transaction.
pub struct TransactionId {
    data: [u8; 12],
}

impl TransactionId {
    /// The identifier's bytes.
    pub closed spec fn bytes(&self) -> Seq<u8> {
        self.data@
    }

    pub fn new(data: [u8; 12]) -> (r: TransactionId)
        ensures
            r.bytes() == data@,
            r.bytes().len() == TRANSACTION_ID_LEN,
    {
        TransactionId { data }
    }

    /// The transaction id held in `data`; `Err(InvalidLength)` unless `data`
    /// holds exactly twelve bytes.
    pub fn from_slice(data: &[u8]) -> (r: Result<TransactionId, StunError>)
        ensures
            data@.len() == TRANSACTION_ID_LEN ==> r.is_ok() && r.unwrap().bytes() == data@,
            data@.len() != TRANSACTION_ID_LEN ==> r == Err::<TransactionId, StunError>(
                StunError::InvalidLength,
            ),
    {
        if data.len() != TRANSACTION_ID_LEN {
            return Err(StunError::InvalidLength);
        }
        let mut arr: [u8; 12] = [0u8; 12];
        let mut i: usize = 0;
        while i < TRANSACTION_ID_LEN
            invariant
                data@.len() == TRANSACTION_ID_LEN,
                i <= TRANSACTION_ID_LEN,
                arr@.len() == TRANSACTION_ID_LEN,
                forall|k: int| 0 <= k < i ==> arr@[k] == data@[k],
            decreases TRANSACTION_ID_LEN - i,
        {
            arr[i] = data[i];
            i = i + 1;
        }
        assert(arr@ =~= data@);
        Ok(TransactionId { data: arr })
    }

    /// The identifier's twelve bytes, in order.
    pub fn to_bytes(&self) -> (r: Vec<u8>)
        ensures
            r@ == self.bytes(),
            r@.len() == TRANSACTION_ID_LEN,
    {
        let mut out: Vec<u8> = Vec::new();
        let mut i: usize = 0;
        while i < TRANSACTION_ID_LEN
            invariant
                i <= TRANSACTION_ID_LEN,
                self.data@.len() == TRANSACTION_ID_LEN,
                out@ =~= self.data@.subrange(0, i as int),
            decreases TRANSACTION_ID_LEN - i,
        {
            out.push(self.data[i]);
            i = i + 1;
        }
        assert(out@ =~= self.data@);
        out
    }
}

/// Why a STUN value could not be built.
#[derive(Debug, PartialEq, Eq, Structural)]
pub enum StunError {
    /// A transaction id must hold exactly twelve bytes.
    InvalidLength,
}

/// A STUN message header.
pub struct Header {
    msg_type: MsgType,
    length: u16,
    transaction_id: TransactionId,
}

/// The 20 bytes of a header with the given message type field, payload length
/// and transaction id bytes.
pub open spec fn header_bytes(type_code: u16, length: u16, transaction_id: Seq<u8>) -> Seq<u8> {
    be16(type_code) + be16(length) + be32(MAGIC_COOKIE) + transaction_id
}

impl Header {
    /// The message type.
    pub closed spec fn msg_type(&self) -> MsgType {
        self.msg_type
    }

    /// The payload length.
    pub closed spec fn length(&self) -> u16 {
        self.length
    }

    /// The transaction id.
    pub closed spec fn transaction_id(&self) -> TransactionId {
        self.transaction_id
    }

    pub fn new(msg_type: MsgType, length: u16, transaction_id: TransactionId) -> (r: Header)
        ensures
            r.msg_type() == msg_type,
            r.length() == length,
            r.transaction_id() == transaction_id,
    {
        Header { msg_type, length, transaction_id }
    }

    /// The header's wire form: message type, length and magic cookie, each
    /// big-endian, then the transaction id.
    pub fn to_bytes(&self) -> (r: Vec<u8>)
        ensures
            self.msg_type().method().code() < 0x1000,
            0 <= self.msg_type().type_code() < 0x1_0000,
            r@ == header_bytes(
                self.msg_type().type_code() as u16,
                self.length(),
                self.transaction_id().bytes(),
            ),
            r@.len() == HEADER_LEN,
    {
        let mut bytes = self.msg_type.to_bytes();
        let mut len_bytes = vec![(self.length / 256) as u8, (self.length % 256) as u8];
        bytes.append(&mut len_bytes);
        let mut cookie = vec![
            (MAGIC_COOKIE / 0x100_0000) as u8,
            (MAGIC_COOKIE / 0x1_0000 % 256) as u8,
            (MAGIC_COOKIE / 256 % 256) as u8,
            (MAGIC_COOKIE % 256) as u8,
        ];
        bytes.append(&mut cookie);
        let mut id = self.transaction_id.to_bytes();
        bytes.append(&mut id);
        proof {
            assert(self.transaction_id.data@.len() == 12);
        }
        bytes
    }
}

proof fn lemma_msg_type_bits(m: u16, c: u16)
    requires
        m < 0x1000,
        c < 4,
    ensures
        ((m & 0x0F80) << 2) | ((m & 0x0070) << 1) | (m & 0x000F) | ((c & 2) << 7) | ((c & 1) << 4)
            == m % 16 + 16 * (c % 2) + 32 * (m / 16 % 8) + 256 * (c / 2) + 512 * (m / 128),
{
    assert(((m & 0x0F80) << 2) | ((m & 0x0070) << 1) | (m & 0x000F) | ((c & 2) << 7) | ((c & 1)
        << 4) == m % 16 + 16 * (c % 2) + 32 * (m / 16 % 8) + 256 * (c / 2) + 512 * (m / 128))
        by (bit_vector)
        requires
            m < 0x1000,
            c < 4,
    ;
}

} // verus!
