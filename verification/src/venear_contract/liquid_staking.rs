//! The data of liquid staking tokens, which only moves forward.
use vstd::prelude::*;
use crate::account::AccountId;
use crate::error::ContractError;
use crate::venear_contract::{Contract, LstData};

verus! {

impl Contract {
    /// Why new data for `token` is refused, if it is: data must be newer
    /// than what is kept, with a multiplier no smaller.
    pub open spec fn lst_error(self, token: Seq<char>, data: LstData) -> Option<ContractError> {
        let prev = self.lsts@[token];
        if !self.lsts@.contains_key(token) {
            None
        } else if data.timestamp <= prev.timestamp {
            Some(ContractError::StaleLstData)
        } else if data.multiplier.numerator * prev.multiplier.denominator
            < data.multiplier.denominator * prev.multiplier.numerator {
            Some(ContractError::LstMultiplierDecreased)
        } else {
            None
        }
    }

    /// Keeps new data for a liquid staking token.
    pub fn internal_update_lst_data(&mut self, token_id: AccountId, lst_data: LstData) -> (res: Result<(), ContractError>)
        requires
            old(self).wf(),
        ensures
            final(self).wf(),
            res is Err <==> old(self).lst_error(token_id@, lst_data) is Some,
            res matches Err(e) ==> old(self).lst_error(token_id@, lst_data) == Some(e) && *final(self) == *old(self),
            res is Ok ==> final(self).lsts@ == old(self).lsts@.insert(token_id@, lst_data)
                && final(self).tree == old(self).tree && final(self).accounts == old(self).accounts
                && final(self).config == old(self).config && final(self).paused == old(self).paused
                && final(self).lockup_codes == old(self).lockup_codes,
    {
        match self.lsts.get(token_id.as_str()) {
            Some(prev) => {
                if lst_data.timestamp <= prev.timestamp {
                    return Err(ContractError::StaleLstData);
                }
                if lst_data.multiplier < prev.multiplier {
                    return Err(ContractError::LstMultiplierDecreased);
                }
            },
            None => {},
        }
        let ghost s0 = *self;
        self.lsts.insert(token_id, lst_data);
        proof {
            s0.lemma_same_tree(*self);
        }
        Ok(())
    }
}

} // verus!
