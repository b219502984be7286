//! Message Type Indicator: four decimal digits giving a message's protocol
//! version, class, function, and origin.

use vstd::prelude::*;
use crate::ascii::{all_digits, char_of_digit, chars_of_bytes, digit_val, is_digit, is_digit_byte,
    string_from_ascii};
use crate::error::ISO8583Error;

verus! {

/// Message class, the second MTI digit.
#[derive(Debug, Clone, Copy, PartialEq, Eq, Hash, Structural)]
pub enum MessageClass {
    /// Reserved for ISO use (first digit position value zero)
    Reserved,
    /// Authorization
    Authorization,
    /// Financial transactions
    Financial,
    /// File actions
    FileActions,
    /// Reversal and chargeback
    Reversal,
    /// Reconciliation
    Reconciliation,
    /// Administrative
    Administrative,
    /// Fee collection
    FeeCollection,
    /// Network management
    NetworkManagement,
    /// Reserved for ISO use (highest position value)
    ReservedISO,
}

/// Message function, the third MTI digit.
#[derive(Debug, Clone, Copy, PartialEq, Eq, Hash, Structural)]
pub enum MessageFunction {
    /// Request
    Request,
    /// Request response
    Response,
    /// Advice
    Advice,
    /// Advice response
    AdviceResponse,
    /// Notification
    Notification,
    /// Notification acknowledgement
    NotificationAck,
    /// Instruction
    Instruction,
    /// Instruction acknowledgement
    InstructionAck,
    /// Reserved
    Reserved8,
    /// Reserved
    Reserved9,
}

/// Message origin, the fourth MTI digit.
#[derive(Debug, Clone, Copy, PartialEq, Eq, Hash, Structural)]
pub enum MessageOrigin {
    /// Acquirer
    Acquirer,
    /// Acquirer repeat
    AcquirerRepeat,
    /// Issuer
    Issuer,
    /// Issuer repeat
    IssuerRepeat,
    /// Other
    Other,
    /// Other repeat
    OtherRepeat,
    /// Reserved
    Reserved6,
    /// Reserved
    Reserved7,
    /// Reserved
    Reserved8,
    /// Reserved
    Reserved9,
}

/// Message Type Indicator.
#[derive(Debug, Clone, Copy, PartialEq, Eq, Hash, Structural)]
pub struct MessageType {
    /// Protocol version digit, zero through nine
    pub version: u8,
    /// Message class digit
    pub class: MessageClass,
    /// Message function digit
    pub function: MessageFunction,
    /// Message origin digit
    pub origin: MessageOrigin,
}

/// Digit value of a message class.
pub open spec fn class_digit(c: MessageClass) -> int {
    match c {
        MessageClass::Reserved => 0,
        MessageClass::Authorization => 1,
        MessageClass::Financial => 2,
        MessageClass::FileActions => 3,
        MessageClass::Reversal => 4,
        MessageClass::Reconciliation => 5,
        MessageClass::Administrative => 6,
        MessageClass::FeeCollection => 7,
        MessageClass::NetworkManagement => 8,
        MessageClass::ReservedISO => 9,
    }
}

/// Message class of a digit below ten.
pub open spec fn class_of_digit(d: int) -> MessageClass {
    if d == 0 {
        MessageClass::Reserved
    } else if d == 1 {
        MessageClass::Authorization
    } else if d == 2 {
        MessageClass::Financial
    } else if d == 3 {
        MessageClass::FileActions
    } else if d == 4 {
        MessageClass::Reversal
    } else if d == 5 {
        MessageClass::Reconciliation
    } else if d == 6 {
        MessageClass::Administrative
    } else if d == 7 {
        MessageClass::FeeCollection
    } else if d == 8 {
        MessageClass::NetworkManagement
    } else {
        MessageClass::ReservedISO
    }
}

/// Digit value of a message function.
pub open spec fn function_digit(f: MessageFunction) -> int {
    match f {
        MessageFunction::Request => 0,
        MessageFunction::Response => 1,
        MessageFunction::Advice => 2,
        MessageFunction::AdviceResponse => 3,
        MessageFunction::Notification => 4,
        MessageFunction::NotificationAck => 5,
        MessageFunction::Instruction => 6,
        MessageFunction::InstructionAck => 7,
        MessageFunction::Reserved8 => 8,
        MessageFunction::Reserved9 => 9,
    }
}

/// Message function of a digit below ten.
pub open spec fn function_of_digit(d: int) -> MessageFunction {
    if d == 0 {
        MessageFunction::Request
    } else if d == 1 {
        MessageFunction::Response
    } else if d == 2 {
        MessageFunction::Advice
    } else if d == 3 {
        MessageFunction::AdviceResponse
    } else if d == 4 {
        MessageFunction::Notification
    } else if d == 5 {
        MessageFunction::NotificationAck
    } else if d == 6 {
        MessageFunction::Instruction
    } else if d == 7 {
        MessageFunction::InstructionAck
    } else if d == 8 {
        MessageFunction::Reserved8
    } else {
        MessageFunction::Reserved9
    }
}

/// Digit value of a message origin.
pub open spec fn origin_digit(o: MessageOrigin) -> int {
    match o {
        MessageOrigin::Acquirer => 0,
        MessageOrigin::AcquirerRepeat => 1,
        MessageOrigin::Issuer => 2,
        MessageOrigin::IssuerRepeat => 3,
        MessageOrigin::Other => 4,
        MessageOrigin::OtherRepeat => 5,
        MessageOrigin::Reserved6 => 6,
        MessageOrigin::Reserved7 => 7,
        MessageOrigin::Reserved8 => 8,
        MessageOrigin::Reserved9 => 9,
    }
}

/// Message origin of a digit below ten.
pub open spec fn origin_of_digit(d: int) -> MessageOrigin {
    if d == 0 {
        MessageOrigin::Acquirer
    } else if d == 1 {
        MessageOrigin::AcquirerRepeat
    } else if d == 2 {
        MessageOrigin::Issuer
    } else if d == 3 {
        MessageOrigin::IssuerRepeat
    } else if d == 4 {
        MessageOrigin::Other
    } else if d == 5 {
        MessageOrigin::OtherRepeat
    } else if d == 6 {
        MessageOrigin::Reserved6
    } else if d == 7 {
        MessageOrigin::Reserved7
    } else if d == 8 {
        MessageOrigin::Reserved8
    } else {
        MessageOrigin::Reserved9
    }
}

impl MessageType {
    /// An MTI is well formed when its version digit is in range; the other
    /// three positions are enumerations and always are.
    pub open spec fn wf(self) -> bool {
        self.version <= 9
    }

    /// The four digit characters of this MTI.
    pub open spec fn spec_chars(self) -> Seq<char> {
        seq![
            char_of_digit(self.version as int),
            char_of_digit(class_digit(self.class)),
            char_of_digit(function_digit(self.function)),
            char_of_digit(origin_digit(self.origin)),
        ]
    }

    /// The four ASCII digit bytes of this MTI on the wire.
    pub open spec fn spec_wire(self) -> Seq<u8> {
        seq![
            (48 + self.version) as u8,
            (48 + class_digit(self.class)) as u8,
            (48 + function_digit(self.function)) as u8,
            (48 + origin_digit(self.origin)) as u8,
        ]
    }

    /// The MTI a four-digit character string denotes, or none when the
    /// string is not four decimal digits.
    pub open spec fn spec_parse(s: Seq<char>) -> Option<MessageType> {
        if s.len() == 4 && all_digits(s) {
            Some(
                MessageType {
                    version: digit_val(s[0]) as u8,
                    class: class_of_digit(digit_val(s[1])),
                    function: function_of_digit(digit_val(s[2])),
                    origin: origin_of_digit(digit_val(s[3])),
                },
            )
        } else {
            None
        }
    }

    /// Create an MTI from components.
    pub fn new(
        version: u8,
        class: MessageClass,
        function: MessageFunction,
        origin: MessageOrigin,
    ) -> (r: Self)
        ensures
            r == (MessageType { version, class, function, origin }),
    {
        MessageType { version, class, function, origin }
    }

    /// Parse an MTI from a string; fails exactly when the string is not
    /// four decimal digits.
    pub fn from_str(s: &str) -> (r: Result<Self, ISO8583Error>)
        ensures
            r is Ok <==> Self::spec_parse(s@) is Some,
            r is Ok ==> r->Ok_0 == Self::spec_parse(s@)->Some_0 && r->Ok_0.wf(),
            r is Err ==> r->Err_0 matches ISO8583Error::InvalidMTI(_),
    {
        let n = s.unicode_len();
        if n != 4 {
            proof {
                reveal_strlit("MTI must be 4 digits");
            }
            return Err(ISO8583Error::InvalidMTI(String::from_str("MTI must be 4 digits")));
        }
        let mut ds: Vec<u8> = Vec::new();
        let mut i: usize = 0;
        while i < 4
            invariant
                n == s@.len() == 4,
                0 <= i <= 4,
                ds@.len() == i,
                all_digits(s@.take(i as int)),
                forall|j: int| 0 <= j < i ==> ds@[j] == digit_val(s@[j]) && #[trigger] ds@[j] <= 9,
            decreases 4 - i,
        {
            let c = s.get_char(i);
            let u: u32 = c as u32;
            if u < 48 || u > 57 {
                proof {
                    reveal_strlit("Invalid digit in MTI");
                    assert(!is_digit(s@[i as int]));
                }
                return Err(ISO8583Error::InvalidMTI(String::from_str("Invalid digit in MTI")));
            }
            ds.push((u - 48) as u8);
            proof {
                assert(s@.take(i + 1) =~= s@.take(i as int).push(s@[i as int]));
            }
            i = i + 1;
        }
        proof {
            assert(s@.take(4) =~= s@);
        }
        let class = class_of_digit_exec(ds[1]);
        let function = function_of_digit_exec(ds[2]);
        let origin = origin_of_digit_exec(ds[3]);
        Ok(MessageType { version: ds[0], class, function, origin })
    }

    /// Parse an MTI from the first four bytes of a buffer; fails exactly
    /// when fewer than four bytes remain or one of them is not an ASCII
    /// digit.
    pub fn from_bytes(bytes: &[u8]) -> (r: Result<Self, ISO8583Error>)
        ensures
            r is Ok <==> bytes@.len() >= 4 && (forall|j: int|
                0 <= j < 4 ==> is_digit_byte(#[trigger] bytes@[j])),
            r is Ok ==> r->Ok_0 == Self::spec_parse(chars_of_bytes(bytes@.take(4)))->Some_0
                && r->Ok_0.wf(),
            r is Err ==> r->Err_0 matches ISO8583Error::InvalidMTI(_),
    {
        if bytes.len() < 4 {
            proof {
                reveal_strlit("MTI must be at least 4 bytes");
            }
            return Err(
                ISO8583Error::InvalidMTI(String::from_str("MTI must be at least 4 bytes")),
            );
        }
        let ghost cs = chars_of_bytes(bytes@.take(4));
        let mut ds: Vec<u8> = Vec::new();
        let mut i: usize = 0;
        while i < 4
            invariant
                bytes@.len() >= 4,
                cs == chars_of_bytes(bytes@.take(4)),
                0 <= i <= 4,
                ds@.len() == i,
                forall|j: int| 0 <= j < i ==> is_digit_byte(#[trigger] bytes@[j]),
                forall|j: int| 0 <= j < i ==> ds@[j] == bytes@[j] - 48 && #[trigger] ds@[j] <= 9,
            decreases 4 - i,
        {
            let b = bytes[i];
            if b < 48 || b > 57 {
                proof {
                    reveal_strlit("Invalid digit in MTI");
                }
                return Err(ISO8583Error::InvalidMTI(String::from_str("Invalid digit in MTI")));
            }
            ds.push(b - 48);
            i = i + 1;
        }
        proof {
            assert(cs.len() == 4 && all_digits(cs)) by {
                assert forall|j: int| 0 <= j < 4 implies is_digit(#[trigger] cs[j]) by {
                    assert(cs[j] == (bytes@[j] as char));
                    assert(48 <= bytes@[j] <= 57);
                }
            }
            assert forall|j: int| 0 <= j < 4 implies digit_val(cs[j]) == ds@[j] by {
                assert(cs[j] == (bytes@[j] as char));
            }
        }
        let class = class_of_digit_exec(ds[1]);
        let function = function_of_digit_exec(ds[2]);
        let origin = origin_of_digit_exec(ds[3]);
        Ok(MessageType { version: ds[0], class, function, origin })
    }

    /// Render the MTI as its four-digit string.
    pub fn to_string(&self) -> (r: String)
        requires
            self.wf(),
        ensures
            r@ == self.spec_chars(),
    {
        let v = self.to_bytes();
        proof {
            assert(chars_of_bytes(self.spec_wire()) =~= self.spec_chars());
        }
        string_from_ascii(v)
    }

    /// Render the MTI as its four ASCII digit bytes.
    pub fn to_bytes(&self) -> (r: Vec<u8>)
        requires
            self.wf(),
        ensures
            r@ == self.spec_wire(),
    {
        let mut v: Vec<u8> = Vec::new();
        v.push(48 + self.version);
        v.push(48 + self.class.to_digit());
        v.push(48 + self.function.to_digit());
        v.push(48 + self.origin.to_digit());
        proof {
            assert(v@ =~= self.spec_wire());
        }
        v
    }

    /// Whether this is a request message.
    pub fn is_request(&self) -> (r: bool)
        ensures
            r == (self.function == MessageFunction::Request),
    {
        matches!(self.function, MessageFunction::Request)
    }

    /// Whether this is a response message.
    pub fn is_response(&self) -> (r: bool)
        ensures
            r == (self.function == MessageFunction::Response),
    {
        matches!(self.function, MessageFunction::Response)
    }

    /// Whether this is an advice or advice-response message.
    pub fn is_advice(&self) -> (r: bool)
        ensures
            r == (self.function == MessageFunction::Advice || self.function
                == MessageFunction::AdviceResponse),
    {
        matches!(self.function, MessageFunction::Advice | MessageFunction::AdviceResponse)
    }

    /// The response MTI for a request: the same digits with the function
    /// changed to response. Defined only for requests; fails on anything
    /// else.
    pub fn to_response(&self) -> (r: Result<Self, ISO8583Error>)
        ensures
            r is Ok <==> self.function == MessageFunction::Request,
            r is Ok ==> r->Ok_0 == (MessageType {
                version: self.version,
                class: self.class,
                function: MessageFunction::Response,
                origin: self.origin,
            }),
            r is Err ==> r->Err_0 matches ISO8583Error::InvalidMTI(_),
    {
        if !self.is_request() {
            proof {
                reveal_strlit("Can only convert request to response");
            }
            return Err(
                ISO8583Error::InvalidMTI(
                    String::from_str("Can only convert request to response"),
                ),
            );
        }
        Ok(
            MessageType {
                version: self.version,
                class: self.class,
                function: MessageFunction::Response,
                origin: self.origin,
            },
        )
    }
}

/// The message class of a digit, as an executable total map over digits
/// below ten.
fn class_of_digit_exec(d: u8) -> (r: MessageClass)
    requires
        d <= 9,
    ensures
        r == class_of_digit(d as int),
{
    match d {
        0 => MessageClass::Reserved,
        1 => MessageClass::Authorization,
        2 => MessageClass::Financial,
        3 => MessageClass::FileActions,
        4 => MessageClass::Reversal,
        5 => MessageClass::Reconciliation,
        6 => MessageClass::Administrative,
        7 => MessageClass::FeeCollection,
        8 => MessageClass::NetworkManagement,
        _ => MessageClass::ReservedISO,
    }
}

fn function_of_digit_exec(d: u8) -> (r: MessageFunction)
    requires
        d <= 9,
    ensures
        r == function_of_digit(d as int),
{
    match d {
        0 => MessageFunction::Request,
        1 => MessageFunction::Response,
        2 => MessageFunction::Advice,
        3 => MessageFunction::AdviceResponse,
        4 => MessageFunction::Notification,
        5 => MessageFunction::NotificationAck,
        6 => MessageFunction::Instruction,
        7 => MessageFunction::InstructionAck,
        8 => MessageFunction::Reserved8,
        _ => MessageFunction::Reserved9,
    }
}

fn origin_of_digit_exec(d: u8) -> (r: MessageOrigin)
    requires
        d <= 9,
    ensures
        r == origin_of_digit(d as int),
{
    match d {
        0 => MessageOrigin::Acquirer,
        1 => MessageOrigin::AcquirerRepeat,
        2 => MessageOrigin::Issuer,
        3 => MessageOrigin::IssuerRepeat,
        4 => MessageOrigin::Other,
        5 => MessageOrigin::OtherRepeat,
        6 => MessageOrigin::Reserved6,
        7 => MessageOrigin::Reserved7,
        8 => MessageOrigin::Reserved8,
        _ => MessageOrigin::Reserved9,
    }
}

impl MessageClass {
    /// Message class for a digit; fails exactly when the digit is above
    /// nine.
    pub fn from_digit(digit: u8) -> (r: Result<Self, ISO8583Error>)
        ensures
            r is Ok <==> digit <= 9,
            r is Ok ==> r->Ok_0 == class_of_digit(digit as int),
            r is Err ==> r->Err_0 matches ISO8583Error::InvalidMessageClass(_),
    {
        if digit > 9 {
            proof {
                reveal_strlit("Invalid message class digit");
            }
            return Err(
                ISO8583Error::InvalidMessageClass(
                    String::from_str("Invalid message class digit"),
                ),
            );
        }
        Ok(class_of_digit_exec(digit))
    }

    /// The digit of this message class.
    pub fn to_digit(&self) -> (r: u8)
        ensures
            r == class_digit(*self),
    {
        match self {
            MessageClass::Reserved => 0,
            MessageClass::Authorization => 1,
            MessageClass::Financial => 2,
            MessageClass::FileActions => 3,
            MessageClass::Reversal => 4,
            MessageClass::Reconciliation => 5,
            MessageClass::Administrative => 6,
            MessageClass::FeeCollection => 7,
            MessageClass::NetworkManagement => 8,
            MessageClass::ReservedISO => 9,
        }
    }
}

impl MessageFunction {
    /// Message function for a digit; fails exactly when the digit is above
    /// nine.
    pub fn from_digit(digit: u8) -> (r: Result<Self, ISO8583Error>)
        ensures
            r is Ok <==> digit <= 9,
            r is Ok ==> r->Ok_0 == function_of_digit(digit as int),
            r is Err ==> r->Err_0 matches ISO8583Error::InvalidMessageFunction(_),
    {
        if digit > 9 {
            proof {
                reveal_strlit("Invalid message function digit");
            }
            return Err(
                ISO8583Error::InvalidMessageFunction(
                    String::from_str("Invalid message function digit"),
                ),
            );
        }
        Ok(function_of_digit_exec(digit))
    }

    /// The digit of this message function.
    pub fn to_digit(&self) -> (r: u8)
        ensures
            r == function_digit(*self),
    {
        match self {
            MessageFunction::Request => 0,
            MessageFunction::Response => 1,
            MessageFunction::Advice => 2,
            MessageFunction::AdviceResponse => 3,
            MessageFunction::Notification => 4,
            MessageFunction::NotificationAck => 5,
            MessageFunction::Instruction => 6,
            MessageFunction::InstructionAck => 7,
            MessageFunction::Reserved8 => 8,
            MessageFunction::Reserved9 => 9,
        }
    }
}

impl MessageOrigin {
    /// Message origin for a digit; fails exactly when the digit is above
    /// nine.
    pub fn from_digit(digit: u8) -> (r: Result<Self, ISO8583Error>)
        ensures
            r is Ok <==> digit <= 9,
            r is Ok ==> r->Ok_0 == origin_of_digit(digit as int),
            r is Err ==> r->Err_0 matches ISO8583Error::InvalidMessageOrigin(_),
    {
        if digit > 9 {
            proof {
                reveal_strlit("Invalid message origin digit");
            }
            return Err(
                ISO8583Error::InvalidMessageOrigin(
                    String::from_str("Invalid message origin digit"),
                ),
            );
        }
        Ok(origin_of_digit_exec(digit))
    }

    /// The digit of this message origin.
    pub fn to_digit(&self) -> (r: u8)
        ensures
            r == origin_digit(*self),
    {
        match self {
            MessageOrigin::Acquirer => 0,
            MessageOrigin::AcquirerRepeat => 1,
            MessageOrigin::Issuer => 2,
            MessageOrigin::IssuerRepeat => 3,
            MessageOrigin::Other => 4,
            MessageOrigin::OtherRepeat => 5,
            MessageOrigin::Reserved6 => 6,
            MessageOrigin::Reserved7 => 7,
            MessageOrigin::Reserved8 => 8,
            MessageOrigin::Reserved9 => 9,
        }
    }
}

impl MessageType {
    /// Authorization request (0100)
    pub fn authorization_request() -> (r: MessageType)
        ensures
            r == (MessageType {
                version: 0,
                class: MessageClass::Authorization,
                function: MessageFunction::Request,
                origin: MessageOrigin::Acquirer,
            }),
            r.wf(),
    {
        MessageType {
            version: 0,
            class: MessageClass::Authorization,
            function: MessageFunction::Request,
            origin: MessageOrigin::Acquirer,
        }
    }

    /// Authorization response (0110)
    pub fn authorization_response() -> (r: MessageType)
        ensures
            r == (MessageType {
                version: 0,
                class: MessageClass::Authorization,
                function: MessageFunction::Response,
                origin: MessageOrigin::Acquirer,
            }),
            r.wf(),
    {
        MessageType {
            version: 0,
            class: MessageClass::Authorization,
            function: MessageFunction::Response,
            origin: MessageOrigin::Acquirer,
        }
    }

    /// Authorization advice (0120)
    pub fn authorization_advice() -> (r: MessageType)
        ensures
            r == (MessageType {
                version: 0,
                class: MessageClass::Authorization,
                function: MessageFunction::Advice,
                origin: MessageOrigin::Acquirer,
            }),
            r.wf(),
    {
        MessageType {
            version: 0,
            class: MessageClass::Authorization,
            function: MessageFunction::Advice,
            origin: MessageOrigin::Acquirer,
        }
    }

    /// Authorization advice response (0130)
    pub fn authorization_advice_response() -> (r: MessageType)
        ensures
            r == (MessageType {
                version: 0,
                class: MessageClass::Authorization,
                function: MessageFunction::AdviceResponse,
                origin: MessageOrigin::Acquirer,
            }),
            r.wf(),
    {
        MessageType {
            version: 0,
            class: MessageClass::Authorization,
            function: MessageFunction::AdviceResponse,
            origin: MessageOrigin::Acquirer,
        }
    }

    /// Financial request (0200)
    pub fn financial_request() -> (r: MessageType)
        ensures
            r == (MessageType {
                version: 0,
                class: MessageClass::Financial,
                function: MessageFunction::Request,
                origin: MessageOrigin::Acquirer,
            }),
            r.wf(),
    {
        MessageType {
            version: 0,
            class: MessageClass::Financial,
            function: MessageFunction::Request,
            origin: MessageOrigin::Acquirer,
        }
    }

    /// Financial response (0210)
    pub fn financial_response() -> (r: MessageType)
        ensures
            r == (MessageType {
                version: 0,
                class: MessageClass::Financial,
                function: MessageFunction::Response,
                origin: MessageOrigin::Acquirer,
            }),
            r.wf(),
    {
        MessageType {
            version: 0,
            class: MessageClass::Financial,
            function: MessageFunction::Response,
            origin: MessageOrigin::Acquirer,
        }
    }

    /// Financial advice (0220)
    pub fn financial_advice() -> (r: MessageType)
        ensures
            r == (MessageType {
                version: 0,
                class: MessageClass::Financial,
                function: MessageFunction::Advice,
                origin: MessageOrigin::Acquirer,
            }),
            r.wf(),
    {
        MessageType {
            version: 0,
            class: MessageClass::Financial,
            function: MessageFunction::Advice,
            origin: MessageOrigin::Acquirer,
        }
    }

    /// Financial advice response (0230)
    pub fn financial_advice_response() -> (r: MessageType)
        ensures
            r == (MessageType {
                version: 0,
                class: MessageClass::Financial,
                function: MessageFunction::AdviceResponse,
                origin: MessageOrigin::Acquirer,
            }),
            r.wf(),
    {
        MessageType {
            version: 0,
            class: MessageClass::Financial,
            function: MessageFunction::AdviceResponse,
            origin: MessageOrigin::Acquirer,
        }
    }

    /// Reversal request (0400)
    pub fn reversal_request() -> (r: MessageType)
        ensures
            r == (MessageType {
                version: 0,
                class: MessageClass::Reversal,
                function: MessageFunction::Request,
                origin: MessageOrigin::Acquirer,
            }),
            r.wf(),
    {
        MessageType {
            version: 0,
            class: MessageClass::Reversal,
            function: MessageFunction::Request,
            origin: MessageOrigin::Acquirer,
        }
    }

    /// Reversal response (0410)
    pub fn reversal_response() -> (r: MessageType)
        ensures
            r == (MessageType {
                version: 0,
                class: MessageClass::Reversal,
                function: MessageFunction::Response,
                origin: MessageOrigin::Acquirer,
            }),
            r.wf(),
    {
        MessageType {
            version: 0,
            class: MessageClass::Reversal,
            function: MessageFunction::Response,
            origin: MessageOrigin::Acquirer,
        }
    }

    /// Reversal advice (0420)
    pub fn reversal_advice() -> (r: MessageType)
        ensures
            r == (MessageType {
                version: 0,
                class: MessageClass::Reversal,
                function: MessageFunction::Advice,
                origin: MessageOrigin::Acquirer,
            }),
            r.wf(),
    {
        MessageType {
            version: 0,
            class: MessageClass::Reversal,
            function: MessageFunction::Advice,
            origin: MessageOrigin::Acquirer,
        }
    }

    /// Reversal advice response (0430)
    pub fn reversal_advice_response() -> (r: MessageType)
        ensures
            r == (MessageType {
                version: 0,
                class: MessageClass::Reversal,
                function: MessageFunction::AdviceResponse,
                origin: MessageOrigin::Acquirer,
            }),
            r.wf(),
    {
        MessageType {
            version: 0,
            class: MessageClass::Reversal,
            function: MessageFunction::AdviceResponse,
            origin: MessageOrigin::Acquirer,
        }
    }

    /// Network management request (0800)
    pub fn network_management_request() -> (r: MessageType)
        ensures
            r == (MessageType {
                version: 0,
                class: MessageClass::NetworkManagement,
                function: MessageFunction::Request,
                origin: MessageOrigin::Acquirer,
            }),
            r.wf(),
    {
        MessageType {
            version: 0,
            class: MessageClass::NetworkManagement,
            function: MessageFunction::Request,
            origin: MessageOrigin::Acquirer,
        }
    }

    /// Network management response (0810)
    pub fn network_management_response() -> (r: MessageType)
        ensures
            r == (MessageType {
                version: 0,
                class: MessageClass::NetworkManagement,
                function: MessageFunction::Response,
                origin: MessageOrigin::Acquirer,
            }),
            r.wf(),
    {
        MessageType {
            version: 0,
            class: MessageClass::NetworkManagement,
            function: MessageFunction::Response,
            origin: MessageOrigin::Acquirer,
        }
    }

    /// Network management advice (0820)
    pub fn network_management_advice() -> (r: MessageType)
        ensures
            r == (MessageType {
                version: 0,
                class: MessageClass::NetworkManagement,
                function: MessageFunction::Advice,
                origin: MessageOrigin::Acquirer,
            }),
            r.wf(),
    {
        MessageType {
            version: 0,
            class: MessageClass::NetworkManagement,
            function: MessageFunction::Advice,
            origin: MessageOrigin::Acquirer,
        }
    }
}

/// A well-formed MTI parses back from its own rendering: composing the four
/// digits and parsing them yields the same MTI.
pub proof fn lemma_mti_round_trip(m: MessageType)
    requires
        m.wf(),
    ensures
        MessageType::spec_parse(m.spec_chars()) == Some(m),
{
    let s = m.spec_chars();
    assert forall|j: int| 0 <= j < 4 implies is_digit(#[trigger] s[j]) && digit_val(s[j]) == (
    if j == 0 {
        m.version as int
    } else if j == 1 {
        class_digit(m.class)
    } else if j == 2 {
        function_digit(m.function)
    } else {
        origin_digit(m.origin)
    }) by {
        let d: int = if j == 0 {
            m.version as int
        } else if j == 1 {
            class_digit(m.class)
        } else if j == 2 {
            function_digit(m.function)
        } else {
            origin_digit(m.origin)
        };
        assert(0 <= d <= 9);
        assert(s[j] == char_of_digit(d));
        assert(char_of_digit(d) as u32 == 48 + d);
    }
}

} // verus!
