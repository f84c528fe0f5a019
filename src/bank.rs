//! Bank lookups that back the verification of a user's bank account.

use vstd::prelude::*;

verus! {

/// A bank as the account-verification provider lists it.
pub struct Bank {
    pub id: i64,
    pub name: String,
    pub code: String,
    pub bank_type: Option<String>,
}

/// A reply of the account-verification provider.
pub struct FlutterwaveBankApiResponse<T> {
    pub status: String,
    pub message: String,
    pub data: T,
}

/// A user's bank account as the store holds it.
pub struct UserBankAccount {
    pub id: String,
    pub user_id: String,
    pub bank_name: String,
    pub account_number: String,
    pub account_name: Option<String>,
}

/// The public view of a bank account.
pub struct FilteredBankDetails {
    pub bank_details_id: String,
    pub user_id: String,
    pub bank_name: String,
    pub bank_account_number: String,
    pub account_name: Option<String>,
}

/// The public view of `bank`: each field under its public name.
pub fn filtered_bank_record(bank: &UserBankAccount) -> (r: FilteredBankDetails)
    ensures
        r.bank_details_id == bank.id,
        r.user_id == bank.user_id,
        r.bank_name == bank.bank_name,
        r.bank_account_number == bank.account_number,
        r.account_name == bank.account_name,
{
    let account_name = match &bank.account_name {
        Some(n) => Some(n.clone()),
        None => None,
    };
    FilteredBankDetails {
        bank_details_id: bank.id.clone(),
        user_id: bank.user_id.clone(),
        bank_name: bank.bank_name.clone(),
        bank_account_number: bank.account_number.clone(),
        account_name,
    }
}

/// The code of the first bank called `bank_name`, if the list has one.
pub fn find_bank_code(banks: &Vec<Bank>, bank_name: &str) -> (r: Option<String>)
    ensures
        match r {
            Some(code) => exists|i: int|
                0 <= i < banks@.len() && banks@[i].name@ == bank_name@ && code == banks@[i].code
                    && forall|j: int| 0 <= j < i ==> #[trigger] banks@[j].name@ != bank_name@,
            None => forall|i: int| 0 <= i < banks@.len() ==> #[trigger] banks@[i].name@ != bank_name@,
        },
{
    let wanted = bank_name.to_owned();
    let mut i: usize = 0;
    while i < banks.len()
        invariant
            i <= banks@.len(),
            wanted@ == bank_name@,
            forall|j: int| 0 <= j < i ==> #[trigger] banks@[j].name@ != bank_name@,
        decreases banks@.len() - i,
    {
        if banks[i].name == wanted {
            return Some(banks[i].code.clone());
        }
        i = i + 1;
    }
    None
}

impl<T> FlutterwaveBankApiResponse<T> {
    /// The payload of a successful reply, else the provider's message.
    pub fn into_data(self) -> (r: Result<T, String>)
        ensures
            self.status@ == "success"@ ==> r == Ok::<T, String>(self.data),
            self.status@ != "success"@ ==> r == Err::<T, String>(self.message),
    {
        if self.status == "success".to_owned() {
            Ok(self.data)
        } else {
            Err(self.message)
        }
    }
}

} // verus!
