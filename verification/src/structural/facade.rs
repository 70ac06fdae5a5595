//! Facade: one simple interface in front of several parts that have to work
//! together; the caller sees one method and none of the parts.
//!
//! A wallet facade checks the account and the security code, moves the
//! money, sends the notification and writes the ledger.

use crate::text::{append_digits, digits};
use crate::transcript::Transcript;
use vstd::prelude::*;

verus! {

/// The line that a deposit of `amount` puts out.
pub open spec fn deposit_line(amount: u64) -> Seq<char> {
    "Wallet:: Deposit "@ + digits(amount as nat)
}

/// The line that a withdrawal of `amount` puts out.
pub open spec fn withdrawal_line(amount: u64) -> Seq<char> {
    "Wallet:: Withdraw "@ + digits(amount as nat)
}

/// The line that a ledger entry puts out. The amount stands where the
/// sentence speaks of the account, and the account where it speaks of the
/// amount.
pub open spec fn ledger_line(amount: u64, tx_type: Seq<char>, account_id: u64) -> Seq<char> {
    "Make ledger entry for account "@ + digits(amount as nat) + " with transaction type "@
        + tx_type + " amount "@ + digits(account_id as nat)
}

/// A wallet: the money in it.
pub struct Wallet {
    pub balance: u64,
}

impl Wallet {
    /// A wallet that holds `balance`.
    pub fn new(balance: u64) -> (wallet: Self)
        ensures
            wallet.balance == balance,
    {
        Self { balance }
    }

    /// Puts `amount` into the wallet.
    pub fn deposit(&mut self, amount: u64, out: &mut Transcript) -> (result: Result<(), String>)
        requires
            old(self).balance + amount <= u64::MAX,
        ensures
            result is Ok,
            final(self).balance == old(self).balance + amount,
            final(out)@ == old(out)@.push(deposit_line(amount)),
    {
        let mut line = "Wallet:: Deposit ".to_owned();
        append_digits(&mut line, amount);
        out.record(line);
        self.balance += amount;
        Ok(())
    }

    /// Takes `amount` out of the wallet, if the wallet is not empty and
    /// holds that much.
    pub fn withdrawal(&mut self, amount: u64, out: &mut Transcript) -> (result: Result<(), String>)
        ensures
            result is Ok <==> old(self).balance > 0 && amount <= old(self).balance,
            match result {
                Ok(_) => {
                    &&& final(self).balance == old(self).balance - amount
                    &&& final(out)@ == old(out)@.push(withdrawal_line(amount))
                },
                Err(message) => {
                    &&& message@ == "Invalid withdrawal amount"@
                    &&& final(self).balance == old(self).balance
                    &&& final(out)@ == old(out)@
                },
            },
    {
        let valid_amount = self.balance > 0 && amount <= self.balance;
        if valid_amount {
            let mut line = "Wallet:: Withdraw ".to_owned();
            append_digits(&mut line, amount);
            out.record(line);
            self.balance -= amount;
            return Ok(());
        }
        Err("Invalid withdrawal amount".to_owned())
    }
}

/// An account: its number and its holder.
pub struct Account {
    pub account_id: u64,
    pub name: String,
}

impl Account {
    /// The account `account_id` of `name`.
    pub fn new(account_id: u64, name: String) -> (account: Self)
        ensures
            account.account_id == account_id,
            account.name == name,
    {
        Self { account_id, name }
    }

    /// Checks that `account_id` is this account's number.
    pub fn check(&self, account_id: u64, out: &mut Transcript) -> (result: Result<(), String>)
        ensures
            result is Ok <==> self.account_id == account_id,
            match result {
                Ok(_) => final(out)@ == old(out)@,
                Err(message) => {
                    &&& message@ == "Acocunt ID not matches"@
                    &&& final(out)@ == old(out)@.push("Account ID not matches"@)
                },
            },
    {
        if self.account_id != account_id {
            out.record("Account ID not matches".to_owned());
            return Err("Acocunt ID not matches".to_owned());
        }
        Ok(())
    }
}

/// The ledger, in which every movement of money is entered.
pub struct Ledger;

impl Ledger {
    /// Enters a movement of `amount` of the kind `tx_type` for the account
    /// `account_id`.
    pub fn make_entry(&self, amount: u64, tx_type: String, account_id: u64, out: &mut Transcript)
        ensures
            final(out)@ == old(out)@.push(ledger_line(amount, tx_type@, account_id)),
    {
        let mut line = "Make ledger entry for account ".to_owned();
        append_digits(&mut line, amount);
        line.append(" with transaction type ");
        line.append(tx_type.as_str());
        line.append(" amount ");
        append_digits(&mut line, account_id);
        out.record(line);
    }
}

/// Tells the holder of a wallet what happened to it.
pub struct Notification;

impl Notification {
    /// Says that money came in.
    pub fn send_wallet_credit_notification(&self, out: &mut Transcript)
        ensures
            final(out)@ == old(out)@.push("send wallet credit"@),
    {
        out.record("send wallet credit".to_owned());
    }

    /// Says that money went out.
    pub fn send_wallet_debit_notification(&self, out: &mut Transcript)
        ensures
            final(out)@ == old(out)@.push("Send wallet debit"@),
    {
        out.record("Send wallet debit".to_owned());
    }
}

/// The code that the holder of a wallet has to give.
pub struct SecurityCode {
    pub code: u64,
}

impl SecurityCode {
    /// The security code `code`.
    pub fn new(code: u64) -> (security_code: Self)
        ensures
            security_code.code == code,
    {
        SecurityCode { code }
    }

    /// Checks that `code` is the code.
    pub fn check(&self, code: u64, out: &mut Transcript) -> (result: Result<(), String>)
        ensures
            result is Ok <==> self.code == code,
            match result {
                Ok(_) => final(out)@ == old(out)@,
                Err(message) => {
                    &&& message@ == "Invalid code"@
                    &&& final(out)@ == old(out)@.push("Invalid code!"@)
                },
            },
    {
        if self.code != code {
            out.record("Invalid code!".to_owned());
            return Err("Invalid code".to_owned());
        }
        Ok(())
    }
}

/// What moving `amount` through a facade puts out, after the line `start`:
/// the complaint of the first check that failed, or else the deposit, the
/// notification and the ledger entry.
pub open spec fn movement_lines(
    start: Seq<char>,
    account_matches: bool,
    code_matches: bool,
    amount: u64,
    account_id: u64,
) -> Seq<Seq<char>> {
    if !account_matches {
        seq![start, "Account ID not matches"@]
    } else if !code_matches {
        seq![start, "Invalid code!"@]
    } else {
        seq![
            start,
            deposit_line(amount),
            "Send wallet debit"@,
            ledger_line(amount, "deposit"@, account_id),
        ]
    }
}

/// The error that moving money through a facade ends in when a check
/// fails: that of the first check that failed.
pub open spec fn movement_error(account_matches: bool) -> Seq<char> {
    if !account_matches {
        "Acocunt ID not matches"@
    } else {
        "Invalid code"@
    }
}

/// The facade: a wallet with all that belongs to it.
pub struct WalletFacade {
    wallet: Wallet,
    account: Account,
    security_code: SecurityCode,
    notification: Notification,
    ledger: Ledger,
}

impl WalletFacade {
    /// The money in the wallet.
    pub closed spec fn balance(&self) -> u64 {
        self.wallet.balance
    }

    /// The number of the account.
    pub closed spec fn account_id(&self) -> u64 {
        self.account.account_id
    }

    /// The holder of the account.
    pub closed spec fn name(&self) -> Seq<char> {
        self.account.name@
    }

    /// The security code.
    pub closed spec fn code(&self) -> u64 {
        self.security_code.code
    }

    /// An empty wallet for the account `account_id` of `name`, secured by
    /// `code`.
    pub fn new(account_id: u64, name: String, code: u64) -> (facade: Self)
        ensures
            facade.balance() == 0,
            facade.account_id() == account_id,
            facade.name() == name@,
            facade.code() == code,
    {
        Self {
            wallet: Wallet::new(0),
            account: Account::new(account_id, name),
            notification: Notification,
            ledger: Ledger,
            security_code: SecurityCode::new(code),
        }
    }

    /// The money in the wallet.
    pub fn wallet_balance(&self) -> (balance: u64)
        ensures
            balance == self.balance(),
    {
        self.wallet.balance
    }

    /// Whether `account_id` is the number of the account and `code` the
    /// security code.
    pub open spec fn admits(&self, account_id: u64, code: u64) -> bool {
        account_id == self.account_id() && code == self.code()
    }

    /// Whether moving `amount` may end in `result` and leave `after` behind:
    /// it succeeds when the account and the code match, and then the
    /// wallet holds `amount` more; it fails with the error of the first
    /// check that failed, and then the wallet holds what it held. The
    /// account and the code stay as they were.
    pub open spec fn moves(
        &self,
        account_id: u64,
        amount: u64,
        code: u64,
        after: &Self,
        result: Result<(), String>,
    ) -> bool {
        &&& match result {
            Ok(_) => self.admits(account_id, code) && after.balance() == self.balance() + amount,
            Err(message) => {
                &&& !self.admits(account_id, code)
                &&& message@ == movement_error(account_id == self.account_id())
                &&& after.balance() == self.balance()
            },
        }
        &&& after.account_id() == self.account_id()
        &&& after.name() == self.name()
        &&& after.code() == self.code()
    }

    /// Checks the account and the code, one after the other, and if both
    /// match puts `amount` into the wallet, sends the notification and
    /// writes the ledger.
    pub fn add_money_to_wallet(
        &mut self,
        account_id: u64,
        amount: u64,
        code: u64,
        out: &mut Transcript,
    ) -> (result: Result<(), String>)
        requires
            old(self).admits(account_id, code) ==> old(self).balance() + amount <= u64::MAX,
        ensures
            old(self).moves(account_id, amount, code, final(self), result),
            final(out)@ == old(out)@ + movement_lines(
                "Start add money to wallet"@,
                account_id == old(self).account_id(),
                code == old(self).code(),
                amount,
                account_id,
            ),
    {
        self.move_money("Start add money to wallet", account_id, amount, code, out)
    }

    /// Checks the account and the code, one after the other, and if both
    /// match moves `amount`, sends the notification and writes the ledger.
    /// The amount is put into the wallet here too, not taken out of it.
    pub fn deduct_money_from_wallet(
        &mut self,
        account_id: u64,
        amount: u64,
        code: u64,
        out: &mut Transcript,
    ) -> (result: Result<(), String>)
        requires
            old(self).admits(account_id, code) ==> old(self).balance() + amount <= u64::MAX,
        ensures
            old(self).moves(account_id, amount, code, final(self), result),
            final(out)@ == old(out)@ + movement_lines(
                "Start deduct money to wallet"@,
                account_id == old(self).account_id(),
                code == old(self).code(),
                amount,
                account_id,
            ),
    {
        self.move_money("Start deduct money to wallet", account_id, amount, code, out)
    }

    /// What both movements do, after the line `start`.
    fn move_money(
        &mut self,
        start: &str,
        account_id: u64,
        amount: u64,
        code: u64,
        out: &mut Transcript,
    ) -> (result: Result<(), String>)
        requires
            old(self).admits(account_id, code) ==> old(self).balance() + amount <= u64::MAX,
        ensures
            old(self).moves(account_id, amount, code, final(self), result),
            final(out)@ == old(out)@ + movement_lines(
                start@,
                account_id == old(self).account_id(),
                code == old(self).code(),
                amount,
                account_id,
            ),
    {
        out.record(start.to_owned());
        self.account.check(account_id, out)?;
        self.security_code.check(code, out)?;
        self.wallet.deposit(amount, out)?;
        self.notification.send_wallet_debit_notification(out);
        self.ledger.make_entry(amount, "deposit".to_owned(), account_id, out);
        Ok(())
    }
}

/// What [`demo_facade`] puts out.
pub open spec fn demo_facade_lines() -> Seq<Seq<char>> {
    movement_lines("Start add money to wallet"@, true, true, 10, 0) + movement_lines(
        "Start deduct money to wallet"@,
        true,
        true,
        10,
        1,
    )
}

/// Moves 10 into the wallet of account 0, then moves 10 through the wallet
/// of account 1.
pub fn demo_facade(out: &mut Transcript) -> (result: Result<(), String>)
    ensures
        result is Ok,
        final(out)@ == old(out)@ + demo_facade_lines(),
{
    let mut ids: u64 = 0;
    let mut facade_wallet = WalletFacade::new(ids, "Kevin".to_owned(), 12);
    facade_wallet.add_money_to_wallet(0, 10, 12, out)?;

    ids += 1;
    let mut facade_wallet = WalletFacade::new(ids, "Annie".to_owned(), 13);
    facade_wallet.deduct_money_from_wallet(1, 10, 13, out)?;
    Ok(())
}

} // verus!
