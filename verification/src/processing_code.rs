//! Processing codes: six digits naming the transaction type and the two
//! account types involved.

use vstd::prelude::*;
use vstd::string::StrSliceExecFns;
use crate::ascii::{all_digits, chars_of_bytes, dec_bytes_min_width, dec_min_width, digit_val,
    is_digit, string_from_ascii};

verus! {

/// Transaction type, the first two digits of a processing code.
#[derive(Debug, Clone, Copy, PartialEq, Eq, Hash, Structural)]
pub enum TransactionType {
    /// Purchase
    Purchase,
    /// Cash withdrawal
    CashWithdrawal,
    /// Debit adjustment
    DebitAdjustment,
    /// Check guarantee
    CheckGuarantee,
    /// Check verification
    CheckVerification,
    /// Eurocheque
    Eurocheque,
    /// Travelers check
    TravelersCheck,
    /// Letter of credit
    LetterOfCredit,
    /// Giro
    Giro,
    /// Refund
    Refund,
    /// Cash deposit
    CashDeposit,
    /// Check deposit
    CheckDeposit,
    /// Balance inquiry
    BalanceInquiry,
    /// Mini statement
    MiniStatement,
    /// Transfer from checking to savings
    TransferCheckingToSavings,
    /// Transfer from savings to checking
    TransferSavingsToChecking,
    /// Payment
    Payment,
}

/// Account type, the third and fourth or fifth and sixth digits.
#[derive(Debug, Clone, Copy, PartialEq, Eq, Hash, Structural)]
pub enum AccountType {
    /// Default or unspecified
    Default,
    /// Savings account
    Savings,
    /// Checking account
    Checking,
    /// Credit account
    Credit,
    /// Universal account
    Universal,
    /// Investment account
    Investment,
}

/// A processing code: transaction type plus source and destination account
/// types.
#[derive(Debug, Clone, Copy, PartialEq, Eq, Hash, Structural)]
pub struct ProcessingCode {
    /// Transaction type
    pub transaction_type: TransactionType,
    /// Source account type
    pub from_account: AccountType,
    /// Destination account type
    pub to_account: AccountType,
}

/// The two-digit code of a transaction type.
pub open spec fn spec_txn_code(t: TransactionType) -> int {
    match t {
        TransactionType::Purchase => 0,
        TransactionType::CashWithdrawal => 1,
        TransactionType::DebitAdjustment => 2,
        TransactionType::CheckGuarantee => 0,
        TransactionType::CheckVerification => 0,
        TransactionType::Eurocheque => 0,
        TransactionType::TravelersCheck => 0,
        TransactionType::LetterOfCredit => 0,
        TransactionType::Giro => 0,
        TransactionType::Refund => 20,
        TransactionType::CashDeposit => 21,
        TransactionType::CheckDeposit => 22,
        TransactionType::BalanceInquiry => 31,
        TransactionType::MiniStatement => 38,
        TransactionType::TransferCheckingToSavings => 40,
        TransactionType::TransferSavingsToChecking => 41,
        TransactionType::Payment => 50,
    }
}

/// The transaction type of a two-digit code, if the code is assigned.
pub open spec fn spec_txn_of_code(code: int) -> Option<TransactionType> {
    if code == 0 {
        Some(TransactionType::Purchase)
    } else if code == 1 {
        Some(TransactionType::CashWithdrawal)
    } else if code == 2 {
        Some(TransactionType::DebitAdjustment)
    } else if code == 20 {
        Some(TransactionType::Refund)
    } else if code == 21 {
        Some(TransactionType::CashDeposit)
    } else if code == 22 {
        Some(TransactionType::CheckDeposit)
    } else if code == 31 {
        Some(TransactionType::BalanceInquiry)
    } else if code == 38 {
        Some(TransactionType::MiniStatement)
    } else if code == 40 {
        Some(TransactionType::TransferCheckingToSavings)
    } else if code == 41 {
        Some(TransactionType::TransferSavingsToChecking)
    } else if code == 50 {
        Some(TransactionType::Payment)
    } else {
        None
    }
}

/// The two-digit code of an account type.
pub open spec fn spec_account_code(a: AccountType) -> int {
    match a {
        AccountType::Default => 0,
        AccountType::Savings => 10,
        AccountType::Checking => 20,
        AccountType::Credit => 30,
        AccountType::Universal => 40,
        AccountType::Investment => 50,
    }
}

/// The account type of a two-digit code; an unassigned code reads as the
/// default account.
pub open spec fn spec_account_of_code(code: int) -> AccountType {
    if code == 10 {
        AccountType::Savings
    } else if code == 20 {
        AccountType::Checking
    } else if code == 30 {
        AccountType::Credit
    } else if code == 40 {
        AccountType::Universal
    } else if code == 50 {
        AccountType::Investment
    } else {
        AccountType::Default
    }
}

impl TransactionType {
    /// The transaction type for a code; none for an unassigned code.
    pub fn from_code(code: u8) -> (r: Option<Self>)
        ensures
            r == spec_txn_of_code(code as int),
    {
        match code {
            0 => Some(TransactionType::Purchase),
            1 => Some(TransactionType::CashWithdrawal),
            2 => Some(TransactionType::DebitAdjustment),
            20 => Some(TransactionType::Refund),
            21 => Some(TransactionType::CashDeposit),
            22 => Some(TransactionType::CheckDeposit),
            31 => Some(TransactionType::BalanceInquiry),
            38 => Some(TransactionType::MiniStatement),
            40 => Some(TransactionType::TransferCheckingToSavings),
            41 => Some(TransactionType::TransferSavingsToChecking),
            50 => Some(TransactionType::Payment),
            _ => None,
        }
    }

    /// The code of the transaction type.
    pub fn to_code(&self) -> (r: u8)
        ensures
            r == spec_txn_code(*self),
    {
        match self {
            TransactionType::Purchase => 0,
            TransactionType::CashWithdrawal => 1,
            TransactionType::DebitAdjustment => 2,
            TransactionType::Refund => 20,
            TransactionType::CashDeposit => 21,
            TransactionType::CheckDeposit => 22,
            TransactionType::BalanceInquiry => 31,
            TransactionType::MiniStatement => 38,
            TransactionType::TransferCheckingToSavings => 40,
            TransactionType::TransferSavingsToChecking => 41,
            TransactionType::Payment => 50,
            _ => 0,
        }
    }
}

impl AccountType {
    /// The account type for a code; an unassigned code reads as the
    /// default account.
    pub fn from_code(code: u8) -> (r: Option<Self>)
        ensures
            r == Some(spec_account_of_code(code as int)),
    {
        match code {
            10 => Some(AccountType::Savings),
            20 => Some(AccountType::Checking),
            30 => Some(AccountType::Credit),
            40 => Some(AccountType::Universal),
            50 => Some(AccountType::Investment),
            _ => Some(AccountType::Default),
        }
    }

    /// The code of the account type.
    pub fn to_code(&self) -> (r: u8)
        ensures
            r == spec_account_code(*self),
    {
        match self {
            AccountType::Default => 0,
            AccountType::Savings => 10,
            AccountType::Checking => 20,
            AccountType::Credit => 30,
            AccountType::Universal => 40,
            AccountType::Investment => 50,
        }
    }
}

impl ProcessingCode {
    /// Purchase from the default account.
    pub fn purchase() -> (r: Self)
        ensures
            r == (ProcessingCode {
                transaction_type: TransactionType::Purchase,
                from_account: AccountType::Default,
                to_account: AccountType::Default,
            }),
    {
        ProcessingCode {
            transaction_type: TransactionType::Purchase,
            from_account: AccountType::Default,
            to_account: AccountType::Default,
        }
    }

    /// Cash withdrawal from the default account.
    pub fn withdrawal_checking() -> (r: Self)
        ensures
            r == (ProcessingCode {
                transaction_type: TransactionType::CashWithdrawal,
                from_account: AccountType::Default,
                to_account: AccountType::Default,
            }),
    {
        ProcessingCode {
            transaction_type: TransactionType::CashWithdrawal,
            from_account: AccountType::Default,
            to_account: AccountType::Default,
        }
    }

    /// Cash withdrawal from savings.
    pub fn withdrawal_savings() -> (r: Self)
        ensures
            r == (ProcessingCode {
                transaction_type: TransactionType::CashWithdrawal,
                from_account: AccountType::Savings,
                to_account: AccountType::Default,
            }),
    {
        ProcessingCode {
            transaction_type: TransactionType::CashWithdrawal,
            from_account: AccountType::Savings,
            to_account: AccountType::Default,
        }
    }

    /// Deposit to the default account.
    pub fn deposit_checking() -> (r: Self)
        ensures
            r == (ProcessingCode {
                transaction_type: TransactionType::CashDeposit,
                from_account: AccountType::Default,
                to_account: AccountType::Default,
            }),
    {
        ProcessingCode {
            transaction_type: TransactionType::CashDeposit,
            from_account: AccountType::Default,
            to_account: AccountType::Default,
        }
    }

    /// Deposit to savings.
    pub fn deposit_savings() -> (r: Self)
        ensures
            r == (ProcessingCode {
                transaction_type: TransactionType::CashDeposit,
                from_account: AccountType::Savings,
                to_account: AccountType::Default,
            }),
    {
        ProcessingCode {
            transaction_type: TransactionType::CashDeposit,
            from_account: AccountType::Savings,
            to_account: AccountType::Default,
        }
    }

    /// Balance inquiry on the default account.
    pub fn balance_inquiry_checking() -> (r: Self)
        ensures
            r == (ProcessingCode {
                transaction_type: TransactionType::BalanceInquiry,
                from_account: AccountType::Default,
                to_account: AccountType::Default,
            }),
    {
        ProcessingCode {
            transaction_type: TransactionType::BalanceInquiry,
            from_account: AccountType::Default,
            to_account: AccountType::Default,
        }
    }

    /// Balance inquiry on savings.
    pub fn balance_inquiry_savings() -> (r: Self)
        ensures
            r == (ProcessingCode {
                transaction_type: TransactionType::BalanceInquiry,
                from_account: AccountType::Savings,
                to_account: AccountType::Default,
            }),
    {
        ProcessingCode {
            transaction_type: TransactionType::BalanceInquiry,
            from_account: AccountType::Savings,
            to_account: AccountType::Default,
        }
    }

    /// Refund to the default account.
    pub fn refund() -> (r: Self)
        ensures
            r == (ProcessingCode {
                transaction_type: TransactionType::Refund,
                from_account: AccountType::Default,
                to_account: AccountType::Default,
            }),
    {
        ProcessingCode {
            transaction_type: TransactionType::Refund,
            from_account: AccountType::Default,
            to_account: AccountType::Default,
        }
    }

    /// Create a processing code from components.
    pub fn new(
        transaction_type: TransactionType,
        from_account: AccountType,
        to_account: AccountType,
    ) -> (r: Self)
        ensures
            r == (ProcessingCode { transaction_type, from_account, to_account }),
    {
        ProcessingCode { transaction_type, from_account, to_account }
    }

    /// Parse a six-digit processing code; none when the string is not six
    /// digits or the transaction type is unassigned.
    pub fn from_str(s: &str) -> (r: Option<Self>)
        ensures
            r is Some <==> s@.len() == 6 && all_digits(s@) && spec_txn_of_code(
                digit_val(s@[0]) * 10 + digit_val(s@[1]),
            ) is Some,
            r is Some ==> r->0 == (ProcessingCode {
                transaction_type: spec_txn_of_code(digit_val(s@[0]) * 10 + digit_val(s@[1]))->0,
                from_account: spec_account_of_code(digit_val(s@[2]) * 10 + digit_val(s@[3])),
                to_account: spec_account_of_code(digit_val(s@[4]) * 10 + digit_val(s@[5])),
            }),
    {
        let n = s.unicode_len();
        if n != 6 {
            return None;
        }
        let mut ds: Vec<u8> = Vec::new();
        let mut i: usize = 0;
        while i < 6
            invariant
                n == s@.len() == 6,
                0 <= i <= 6,
                ds@.len() == i,
                all_digits(s@.take(i as int)),
                forall|j: int| 0 <= j < i ==> #[trigger] ds@[j] == digit_val(s@[j]) && ds@[j] <= 9,
            decreases 6 - i,
        {
            let c = s.get_char(i);
            let u: u32 = c as u32;
            if u < 48 || u > 57 {
                proof {
                    assert(!is_digit(s@[i as int]));
                }
                return None;
            }
            ds.push((u - 48) as u8);
            proof {
                assert(s@.take(i + 1) =~= s@.take(i as int).push(s@[i as int]));
            }
            i = i + 1;
        }
        proof {
            assert(s@.take(6) =~= s@);
        }
        let tt = match TransactionType::from_code(ds[0] * 10 + ds[1]) {
            Some(t) => t,
            None => {
                return None;
            },
        };
        let from = match AccountType::from_code(ds[2] * 10 + ds[3]) {
            Some(a) => a,
            None => {
                return None;
            },
        };
        let to = match AccountType::from_code(ds[4] * 10 + ds[5]) {
            Some(a) => a,
            None => {
                return None;
            },
        };
        Some(ProcessingCode { transaction_type: tt, from_account: from, to_account: to })
    }

    /// Render the six digits of the processing code.
    pub fn to_string(&self) -> (r: String)
        ensures
            r@ == chars_of_bytes(
                dec_min_width(spec_txn_code(self.transaction_type) as nat, 2) + dec_min_width(
                    spec_account_code(self.from_account) as nat,
                    2,
                ) + dec_min_width(spec_account_code(self.to_account) as nat, 2),
            ),
    {
        let mut out = dec_bytes_min_width(self.transaction_type.to_code() as u64, 2);
        let mut t = dec_bytes_min_width(self.from_account.to_code() as u64, 2);
        out.append(&mut t);
        let mut t = dec_bytes_min_width(self.to_account.to_code() as u64, 2);
        out.append(&mut t);
        proof {
            crate::ascii::lemma_dec_digits_are_digits(spec_txn_code(self.transaction_type) as nat);
            crate::ascii::lemma_dec_digits_are_digits(spec_account_code(self.from_account) as nat);
            crate::ascii::lemma_dec_digits_are_digits(spec_account_code(self.to_account) as nat);
        }
        string_from_ascii(out)
    }

    /// A short description of the transaction and the accounts involved.
    pub fn description(&self) -> (r: String)
        ensures
            r@ == spec_txn_text(self.transaction_type) + spec_from_text(self.from_account)
                + spec_to_text(self.to_account),
    {
        let txn = match self.transaction_type {
            TransactionType::Purchase => "Purchase",
            TransactionType::CashWithdrawal => "Cash Withdrawal",
            TransactionType::CashDeposit => "Deposit",
            TransactionType::BalanceInquiry => "Balance Inquiry",
            TransactionType::Refund => "Refund",
            TransactionType::Payment => "Payment",
            TransactionType::TransferCheckingToSavings => "Transfer",
            TransactionType::TransferSavingsToChecking => "Transfer",
            _ => "Transaction",
        };
        let from = match self.from_account {
            AccountType::Savings => " from Savings",
            AccountType::Checking => " from Checking",
            AccountType::Credit => " from Credit",
            AccountType::Default => "",
            _ => " from Account",
        };
        let to = match self.to_account {
            AccountType::Savings => " to Savings",
            AccountType::Checking => " to Checking",
            AccountType::Credit => " to Credit",
            AccountType::Default => "",
            _ => " to Account",
        };
        let mut out = String::from_str(txn);
        out.append(from);
        out.append(to);
        out
    }

    /// Whether this is a balance inquiry or mini statement.
    pub fn is_inquiry(&self) -> (r: bool)
        ensures
            r == (self.transaction_type == TransactionType::BalanceInquiry
                || self.transaction_type == TransactionType::MiniStatement),
    {
        matches!(
            self.transaction_type,
            TransactionType::BalanceInquiry | TransactionType::MiniStatement,
        )
    }

    /// Whether this moves cash at the terminal.
    pub fn is_cash(&self) -> (r: bool)
        ensures
            r == (self.transaction_type == TransactionType::CashWithdrawal
                || self.transaction_type == TransactionType::CashDeposit),
    {
        matches!(
            self.transaction_type,
            TransactionType::CashWithdrawal | TransactionType::CashDeposit,
        )
    }

    /// Whether this is an account-to-account transfer.
    pub fn is_transfer(&self) -> (r: bool)
        ensures
            r == (self.transaction_type == TransactionType::TransferCheckingToSavings
                || self.transaction_type == TransactionType::TransferSavingsToChecking),
    {
        matches!(
            self.transaction_type,
            TransactionType::TransferCheckingToSavings
                | TransactionType::TransferSavingsToChecking,
        )
    }
}

/// The display text of a transaction type.
pub open spec fn spec_txn_text(t: TransactionType) -> Seq<char> {
    match t {
        TransactionType::Purchase => "Purchase"@,
        TransactionType::CashWithdrawal => "Cash Withdrawal"@,
        TransactionType::CashDeposit => "Deposit"@,
        TransactionType::BalanceInquiry => "Balance Inquiry"@,
        TransactionType::Refund => "Refund"@,
        TransactionType::Payment => "Payment"@,
        TransactionType::TransferCheckingToSavings => "Transfer"@,
        TransactionType::TransferSavingsToChecking => "Transfer"@,
        _ => "Transaction"@,
    }
}

/// The display text of the source account.
pub open spec fn spec_from_text(a: AccountType) -> Seq<char> {
    match a {
        AccountType::Savings => " from Savings"@,
        AccountType::Checking => " from Checking"@,
        AccountType::Credit => " from Credit"@,
        AccountType::Default => ""@,
        _ => " from Account"@,
    }
}

/// The display text of the destination account.
pub open spec fn spec_to_text(a: AccountType) -> Seq<char> {
    match a {
        AccountType::Savings => " to Savings"@,
        AccountType::Checking => " to Checking"@,
        AccountType::Credit => " to Credit"@,
        AccountType::Default => ""@,
        _ => " to Account"@,
    }
}

} // verus!
