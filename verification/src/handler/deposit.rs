use crate::config::{key_index, knows, Config};
use crate::error::{ContractError, ContractErrorView};
use crate::msg::{
    IcaCommand, IcaCommandView, Outpost, Positions, RemoteQuery, RemoteQueryView, Response,
    ResponseView,
};
use crate::text::views;
use vstd::prelude::*;

verus! {

/// The memo of the query that a deposit starts with.
pub open spec fn deposit_query_memo() -> Seq<char> {
    "deposit"@
}

/// What a deposit to `destination` answers with: one command to the
/// controller of the outpost, which asks the custodian for the positions of
/// the outpost's credit account; or why there is none.
pub open spec fn deposit_outcome(outposts: Seq<Outpost>, destination: Seq<char>) -> Result<
    ResponseView,
    ContractErrorView,
> {
    if !knows(outposts, destination) {
        Err(ContractErrorView::DestinationNotFound { destination })
    } else {
        let outpost = outposts[key_index(outposts, destination)];
        match outpost.account_id {
            None => Err(ContractErrorView::NoCreditAccount),
            Some(account_id) => Ok(
                ResponseView {
                    messages: seq![
                        IcaCommandView {
                            controller: outpost.cw_ica_controller_contract@,
                            messages: Seq::empty(),
                            queries: seq![
                                RemoteQueryView {
                                    contract_addr: outpost.mars_red_bank_contract@,
                                    account_id: account_id@,
                                },
                            ],
                            packet_memo: Some(deposit_query_memo()),
                        },
                    ],
                    attributes: Seq::empty(),
                },
            ),
        }
    }
}

/// Starts a deposit to the outpost whose key is `destination`: asks, through
/// the outpost's controller, for the positions of its credit account. The
/// outpost must be registered and must have a credit account.
pub fn try_deposit(config: &Config, destination: String) -> (answer: Result<Response, ContractError>)
    ensures
        match answer {
            Ok(response) => deposit_outcome(config.outposts@, destination@) == Ok::<
                ResponseView,
                ContractErrorView,
            >(response@),
            Err(e) => deposit_outcome(config.outposts@, destination@) == Err::<
                ResponseView,
                ContractErrorView,
            >(e@),
        },
{
    let outpost = match config.find_destination_outpost(destination.as_str()) {
        Some(outpost) => outpost,
        None => {
            return Err(ContractError::DestinationNotFound { destination });
        },
    };
    proof {
        crate::config::lemma_first_match_is_one(
            config.outposts@,
            destination@,
            key_index(config.outposts@, destination@),
        );
    }
    let account_id = match &outpost.account_id {
        Some(account_id) => account_id.clone(),
        None => {
            return Err(ContractError::NoCreditAccount {  });
        },
    };
    let query = RemoteQuery {
        contract_addr: outpost.mars_red_bank_contract.clone(),
        msg: Positions { account_id },
    };
    let mut queries: Vec<RemoteQuery> = Vec::new();
    queries.push(query);
    let command = IcaCommand {
        controller: outpost.cw_ica_controller_contract.clone(),
        messages: Vec::new(),
        queries,
        packet_memo: Some(String::from_str("deposit")),
    };
    let response = Response::new().add_message(command);
    proof {
        assert(views(command.queries@) =~= seq![query@]);
        assert(views(command.messages@) =~= Seq::empty());
        assert(response@.messages =~= seq![command@]);
    }
    Ok(response)
}

} // verus!
