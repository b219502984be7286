//! Response codes: the two-digit outcome of a request, with predicates and
//! a category classification.

use vstd::prelude::*;
use crate::ascii::{chars_of_bytes, dec_bytes_min_width, dec_min_width};

verus! {

/// A response code: two decimal digits.
#[derive(Debug, Clone, Copy, PartialEq, Eq, Hash, Structural)]
pub struct ResponseCode(pub u8, pub u8);

/// Outcome category of a response code.
#[derive(Debug, Clone, Copy, PartialEq, Eq, Structural)]
pub enum ResponseCategory {
    /// Approved
    Approved,
    /// Declined
    Declined,
    /// Referral to the issuer
    Referral,
    /// The card should be retained
    CardRetention,
    /// Insufficient funds or limits exceeded
    InsufficientFunds,
    /// The card has expired
    ExpiredCard,
    /// A PIN problem
    PINError,
    /// A system or network problem
    SystemError,
}

impl ResponseCode {
    /// Create a response code from its two digits.
    pub fn new(first: u8, second: u8) -> (r: Self)
        ensures
            r == ResponseCode(first, second),
    {
        ResponseCode(first, second)
    }

    /// Response code 00.
    pub fn approved() -> (r: Self)
        ensures
            r == ResponseCode(0, 0),
    {
        ResponseCode(0, 0)
    }

    /// Response code 01.
    pub fn approved_with_id() -> (r: Self)
        ensures
            r == ResponseCode(0, 1),
    {
        ResponseCode(0, 1)
    }

    /// Response code 02.
    pub fn approved_partial() -> (r: Self)
        ensures
            r == ResponseCode(0, 2),
    {
        ResponseCode(0, 2)
    }

    /// Response code 01.
    pub fn refer_to_issuer() -> (r: Self)
        ensures
            r == ResponseCode(0, 1),
    {
        ResponseCode(0, 1)
    }

    /// Response code 02.
    pub fn refer_special() -> (r: Self)
        ensures
            r == ResponseCode(0, 2),
    {
        ResponseCode(0, 2)
    }

    /// Response code 03.
    pub fn invalid_merchant() -> (r: Self)
        ensures
            r == ResponseCode(0, 3),
    {
        ResponseCode(0, 3)
    }

    /// Response code 04.
    pub fn pick_up_card() -> (r: Self)
        ensures
            r == ResponseCode(0, 4),
    {
        ResponseCode(0, 4)
    }

    /// Response code 05.
    pub fn do_not_honor() -> (r: Self)
        ensures
            r == ResponseCode(0, 5),
    {
        ResponseCode(0, 5)
    }

    /// Response code 06.
    pub fn error_response() -> (r: Self)
        ensures
            r == ResponseCode(0, 6),
    {
        ResponseCode(0, 6)
    }

    /// Response code 12.
    pub fn invalid_transaction() -> (r: Self)
        ensures
            r == ResponseCode(1, 2),
    {
        ResponseCode(1, 2)
    }

    /// Response code 13.
    pub fn invalid_amount() -> (r: Self)
        ensures
            r == ResponseCode(1, 3),
    {
        ResponseCode(1, 3)
    }

    /// Response code 14.
    pub fn invalid_card_number() -> (r: Self)
        ensures
            r == ResponseCode(1, 4),
    {
        ResponseCode(1, 4)
    }

    /// Response code 15.
    pub fn no_such_issuer() -> (r: Self)
        ensures
            r == ResponseCode(1, 5),
    {
        ResponseCode(1, 5)
    }

    /// Response code 30.
    pub fn format_error() -> (r: Self)
        ensures
            r == ResponseCode(3, 0),
    {
        ResponseCode(3, 0)
    }

    /// Response code 33.
    pub fn expired_card_pickup() -> (r: Self)
        ensures
            r == ResponseCode(3, 3),
    {
        ResponseCode(3, 3)
    }

    /// Response code 34.
    pub fn suspected_fraud() -> (r: Self)
        ensures
            r == ResponseCode(3, 4),
    {
        ResponseCode(3, 4)
    }

    /// Response code 41.
    pub fn lost_card() -> (r: Self)
        ensures
            r == ResponseCode(4, 1),
    {
        ResponseCode(4, 1)
    }

    /// Response code 43.
    pub fn stolen_card() -> (r: Self)
        ensures
            r == ResponseCode(4, 3),
    {
        ResponseCode(4, 3)
    }

    /// Response code 51.
    pub fn insufficient_funds() -> (r: Self)
        ensures
            r == ResponseCode(5, 1),
    {
        ResponseCode(5, 1)
    }

    /// Response code 54.
    pub fn expired_card() -> (r: Self)
        ensures
            r == ResponseCode(5, 4),
    {
        ResponseCode(5, 4)
    }

    /// Response code 55.
    pub fn incorrect_pin() -> (r: Self)
        ensures
            r == ResponseCode(5, 5),
    {
        ResponseCode(5, 5)
    }

    /// Response code 57.
    pub fn transaction_not_permitted() -> (r: Self)
        ensures
            r == ResponseCode(5, 7),
    {
        ResponseCode(5, 7)
    }

    /// Response code 61.
    pub fn exceeds_withdrawal_limit() -> (r: Self)
        ensures
            r == ResponseCode(6, 1),
    {
        ResponseCode(6, 1)
    }

    /// Response code 75.
    pub fn pin_required() -> (r: Self)
        ensures
            r == ResponseCode(7, 5),
    {
        ResponseCode(7, 5)
    }

    /// Response code 77.
    pub fn pin_tries_exceeded() -> (r: Self)
        ensures
            r == ResponseCode(7, 7),
    {
        ResponseCode(7, 7)
    }

    /// Response code 91.
    pub fn issuer_unavailable() -> (r: Self)
        ensures
            r == ResponseCode(9, 1),
    {
        ResponseCode(9, 1)
    }

    /// Response code 96.
    pub fn system_malfunction() -> (r: Self)
        ensures
            r == ResponseCode(9, 6),
    {
        ResponseCode(9, 6)
    }

    /// A human-readable description of the code.
    pub fn description(&self) -> (r: &'static str)
        ensures
            self.0 == 0 && self.1 == 0 ==> r@ == "Approved or completed successfully"@,
            self.0 == 0 && self.1 == 1 ==> r@ == "Refer to card issuer"@,
            self.0 == 0 && self.1 == 2 ==> r@ == "Refer to card issuer, special condition"@,
            self.0 == 0 && self.1 == 3 ==> r@ == "Invalid merchant"@,
            self.0 == 0 && self.1 == 4 ==> r@ == "Pick up card"@,
            self.0 == 0 && self.1 == 5 ==> r@ == "Do not honor"@,
            self.0 == 0 && self.1 == 6 ==> r@ == "Error"@,
            self.0 == 0 && self.1 == 7 ==> r@ == "Pick up card, special condition"@,
            self.0 == 1 && self.1 == 2 ==> r@ == "Invalid transaction"@,
            self.0 == 1 && self.1 == 3 ==> r@ == "Invalid amount"@,
            self.0 == 1 && self.1 == 4 ==> r@ == "Invalid card number"@,
            self.0 == 1 && self.1 == 5 ==> r@ == "No such issuer"@,
            self.0 == 3 && self.1 == 0 ==> r@ == "Format error"@,
            self.0 == 4 && self.1 == 1 ==> r@ == "Lost card, pick up"@,
            self.0 == 4 && self.1 == 3 ==> r@ == "Stolen card, pick up"@,
            self.0 == 5 && self.1 == 1 ==> r@ == "Insufficient funds"@,
            self.0 == 5 && self.1 == 4 ==> r@ == "Expired card"@,
            self.0 == 5 && self.1 == 5 ==> r@ == "Incorrect PIN"@,
            self.0 == 5 && self.1 == 7 ==> r@ == "Transaction not permitted to cardholder"@,
            self.0 == 5 && self.1 == 8 ==> r@ == "Transaction not permitted to terminal"@,
            self.0 == 6 && self.1 == 1 ==> r@ == "Exceeds withdrawal amount limit"@,
            self.0 == 7 && self.1 == 5 ==> r@ == "PIN required"@,
            self.0 == 7 && self.1 == 7 ==> r@ == "PIN tries exceeded"@,
            self.0 == 9 && self.1 == 1 ==> r@ == "Issuer or switch inoperative"@,
            self.0 == 9 && self.1 == 6 ==> r@ == "System malfunction"@,
    {
        match (self.0, self.1) {
            (0, 0) => "Approved or completed successfully",
            (0, 1) => "Refer to card issuer",
            (0, 2) => "Refer to card issuer, special condition",
            (0, 3) => "Invalid merchant",
            (0, 4) => "Pick up card",
            (0, 5) => "Do not honor",
            (0, 6) => "Error",
            (0, 7) => "Pick up card, special condition",
            (1, 2) => "Invalid transaction",
            (1, 3) => "Invalid amount",
            (1, 4) => "Invalid card number",
            (1, 5) => "No such issuer",
            (3, 0) => "Format error",
            (4, 1) => "Lost card, pick up",
            (4, 3) => "Stolen card, pick up",
            (5, 1) => "Insufficient funds",
            (5, 4) => "Expired card",
            (5, 5) => "Incorrect PIN",
            (5, 7) => "Transaction not permitted to cardholder",
            (5, 8) => "Transaction not permitted to terminal",
            (6, 1) => "Exceeds withdrawal amount limit",
            (7, 5) => "PIN required",
            (7, 7) => "PIN tries exceeded",
            (9, 1) => "Issuer or switch inoperative",
            (9, 6) => "System malfunction",
            _ => "Unknown response code",
        }
    }

    /// Whether the response approves the request.
    pub fn is_approved(&self) -> (r: bool)
        ensures
            r == (self.0 == 0 && self.1 == 0),
    {
        self.0 == 0 && self.1 == 0
    }

    /// Whether the response is a referral to the issuer.
    pub fn is_referral(&self) -> (r: bool)
        ensures
            r == ((self.0 == 0 && self.1 == 1) || (self.0 == 0 && self.1 == 2)),
    {
        (self.0 == 0 && self.1 == 1) || (self.0 == 0 && self.1 == 2)
    }

    /// Whether the response names a system or network problem.
    pub fn is_system_error(&self) -> (r: bool)
        ensures
            r == (self.0 == 9 || self.0 == 8 || (self.0 == 3 && self.1 == 0) || (self.0 == 0
                && self.1 == 6)),
    {
        self.0 == 9 || self.0 == 8 || (self.0 == 3 && self.1 == 0) || (self.0 == 0 && self.1 == 6)
    }

    /// Whether the response is a decline: not an approval, referral, or
    /// system problem.
    pub fn is_declined(&self) -> (r: bool)
        ensures
            r == (!(self.0 == 0 && self.1 == 0) && !((self.0 == 0 && self.1 == 1) || (self.0 == 0
                && self.1 == 2)) && !(self.0 == 9 || self.0 == 8 || (self.0 == 3 && self.1 == 0)
                || (self.0 == 0 && self.1 == 6))),
    {
        !self.is_approved() && !self.is_referral() && !self.is_system_error()
    }

    /// Whether the card should be retained.
    pub fn should_retain_card(&self) -> (r: bool)
        ensures
            r == ((self.0 == 0 && self.1 == 4) || (self.0 == 0 && self.1 == 7) || (self.0 == 4
                && self.1 == 1) || (self.0 == 4 && self.1 == 3)),
    {
        (self.0 == 0 && self.1 == 4) || (self.0 == 0 && self.1 == 7) || (self.0 == 4 && self.1
            == 1) || (self.0 == 4 && self.1 == 3)
    }

    /// The outcome category of the code.
    pub fn category(&self) -> (r: ResponseCategory)
        ensures
            r == spec_category(*self),
    {
        if self.0 == 0 && self.1 <= 2 {
            ResponseCategory::Approved
        } else if self.0 == 0 && (self.1 <= 4 || self.1 == 7) {
            ResponseCategory::Referral
        } else if self.0 == 4 && (self.1 == 1 || self.1 == 3) {
            ResponseCategory::CardRetention
        } else if (self.0 == 5 && self.1 == 1) || (self.0 == 6 && (self.1 == 1 || self.1 == 5)) {
            ResponseCategory::InsufficientFunds
        } else if self.0 == 5 && self.1 == 4 {
            ResponseCategory::ExpiredCard
        } else if (self.0 == 5 && self.1 == 5) || (self.0 == 7 && (self.1 == 5 || self.1 == 7)) {
            ResponseCategory::PINError
        } else if self.0 == 9 || self.0 == 8 {
            ResponseCategory::SystemError
        } else {
            ResponseCategory::Declined
        }
    }

    /// Render the code as its two digits.
    pub fn to_string(&self) -> (r: String)
        requires
            self.0 <= 9 && self.1 <= 9,
        ensures
            r@ == chars_of_bytes(dec_min_width((self.0 * 10 + self.1) as nat, 2)),
    {
        let v: u32 = self.0 as u32 * 10 + self.1 as u32;
        let bytes = dec_bytes_min_width(v as u64, 2);
        proof {
            crate::ascii::lemma_dec_digits_are_digits(v as nat);
        }
        crate::ascii::string_from_ascii(bytes)
    }
}

/// The category of each response code: approvals and referrals by the first
/// digit zero, retention, funds, expiry, and PIN classes by their specific
/// codes, system errors by the eight and nine classes, everything else a
/// decline.
pub open spec fn spec_category(c: ResponseCode) -> ResponseCategory {
    if c.0 == 0 && c.1 <= 2 {
        ResponseCategory::Approved
    } else if c.0 == 0 && (c.1 <= 4 || c.1 == 7) {
        ResponseCategory::Referral
    } else if c.0 == 4 && (c.1 == 1 || c.1 == 3) {
        ResponseCategory::CardRetention
    } else if (c.0 == 5 && c.1 == 1) || (c.0 == 6 && (c.1 == 1 || c.1 == 5)) {
        ResponseCategory::InsufficientFunds
    } else if c.0 == 5 && c.1 == 4 {
        ResponseCategory::ExpiredCard
    } else if (c.0 == 5 && c.1 == 5) || (c.0 == 7 && (c.1 == 5 || c.1 == 7)) {
        ResponseCategory::PINError
    } else if c.0 == 9 || c.0 == 8 {
        ResponseCategory::SystemError
    } else {
        ResponseCategory::Declined
    }
}

impl std::str::FromStr for ResponseCode {
    type Err = ();

    /// Parse a two-digit response code.
    fn from_str(s: &str) -> Result<Self, Self::Err> {
        let b = crate::ascii::bytes_of_str(s);
        if b.len() != 2 {
            return Err(());
        }
        if b[0] < 48 || b[0] > 57 || b[1] < 48 || b[1] > 57 {
            return Err(());
        }
        Ok(ResponseCode(b[0] - 48, b[1] - 48))
    }
}

} // verus!
