//! Entering the Bitcoin node.

use vstd::prelude::*;

use crate::form::{Concrete, Model};
use crate::names::{inscribe_connected, inscribe_from_node};
use crate::session::next;
use crate::spending::{send_connected, send_from_node};
use crate::state::{
    AfterNode, NodeStage, Settings, State, Step, end, ended, failed_outside, misreplied, misreply,
};
use crate::wire::{Defect, Outcome, Reply, Request, RpcOptions};

verus! {

/// Where the node is and how it is entered, where the settings say so.
pub open spec fn node_options(settings: Settings<Model>) -> Option<RpcOptions<Model>> {
    match settings.rpc_url {
        Some(rpcurl) => Some(
            RpcOptions {
                rpcurl,
                rpcuser: settings.rpc_user,
                rpcpassword: settings.rpc_password,
                rpctoken: settings.rpc_token,
                network: settings.network,
            },
        ),
        None => None,
    }
}

/// The first step of entering the node: its client is made. Where the settings do not say where
/// the node is, the program panics.
pub open spec fn connecting(settings: Settings<Model>, after: AfterNode<Model>) -> Step<Model> {
    match node_options(settings) {
        Some(options) => Step {
            state: State::Node { stage: NodeStage::Connect, after },
            request: Request::Connect { options },
        },
        None => ended(Outcome::Panic(Defect::RpcUrlMissing)),
    }
}

/// The step that follows once the node has answered.
pub open spec fn connected(after: AfterNode<Model>) -> Step<Model> {
    match after {
        AfterNode::Send { secret, payment, p2wpkh, p2tr } => send_connected(
            secret,
            payment,
            p2wpkh,
            p2tr,
        ),
        AfterNode::Inscribe { secret, fee, funding, names, p2wpkh, p2tr } => inscribe_connected(
            secret,
            fee,
            funding,
            names,
            p2wpkh,
            p2tr,
        ),
    }
}

/// The next step of entering the node: once its client is made it is pinged, and once it has
/// answered it is used.
pub open spec fn node_next(
    stage: NodeStage,
    after: AfterNode<Model>,
    reply: Reply<Model>,
) -> Step<Model> {
    match (stage, reply) {
        (NodeStage::Connect, Reply::Done) => Step {
            state: State::Node { stage: NodeStage::Ping, after },
            request: Request::Ping,
        },
        (NodeStage::Ping, Reply::Done) => connected(after),
        _ => misreplied(),
    }
}

/// Begins to enter the node: makes its client.
pub fn get_inscriber(settings: &Settings<Concrete>, after: AfterNode<Concrete>) -> (r: Step<
    Concrete,
>)
    ensures
        r@ == connecting(settings@, after@),
{
    match &settings.rpc_url {
        Some(rpcurl) => Step {
            state: State::Node { stage: NodeStage::Connect, after },
            request: Request::Connect {
                options: RpcOptions {
                    rpcurl: rpcurl.clone(),
                    rpcuser: settings.rpc_user.clone(),
                    rpcpassword: settings.rpc_password.clone(),
                    rpctoken: settings.rpc_token.clone(),
                    network: settings.network,
                },
            },
        },
        None => end(Outcome::Panic(Defect::RpcUrlMissing)),
    }
}

/// Goes on with entering the node.
pub(crate) fn node_step(
    stage: NodeStage,
    after: AfterNode<Concrete>,
    reply: Reply<Concrete>,
) -> (r: Step<Concrete>)
    ensures
        r@ == node_next(stage, after@, reply@),
{
    match (stage, reply) {
        (NodeStage::Connect, Reply::Done) => Step {
            state: State::Node { stage: NodeStage::Ping, after },
            request: Request::Ping,
        },
        (NodeStage::Ping, Reply::Done) => match after {
            AfterNode::Send { secret, payment, p2wpkh, p2tr } => send_from_node(
                secret,
                payment,
                p2wpkh,
                p2tr,
            ),
            AfterNode::Inscribe { secret, fee, funding, names, p2wpkh, p2tr } =>
                inscribe_from_node(secret, fee, funding, names, p2wpkh, p2tr),
        },
        _ => misreply(),
    }
}

/// The answer that tells whether something was done, or why not.
pub open spec fn outcome_reply(outcome: Result<(), Seq<Seq<char>>>) -> Reply<Model> {
    match outcome {
        Ok(_) => Reply::Done,
        Err(messages) => Reply::Failed { messages },
    }
}

/// The node is used exactly where its client could be made and it answered a ping through that
/// client. Where the client could not be made nothing is pinged, and the command fails for the
/// reason of that; where the ping failed, it fails for the reason of that.
pub proof fn the_node_is_used_once_it_answered(
    settings: Settings<Model>,
    options: RpcOptions<Model>,
    after: AfterNode<Model>,
    made: Result<(), Seq<Seq<char>>>,
    pinged: Result<(), Seq<Seq<char>>>,
)
    requires
        node_options(settings) == Some(options),
    ensures
        ({
            let first = connecting(settings, after);
            let second = next(settings, first.state, outcome_reply(made));
            let third = next(settings, second.state, outcome_reply(pinged));
            &&& first.request == (Request::<Model>::Connect { options })
            &&& made matches Err(messages) ==> second == failed_outside(messages)
            &&& made is Ok ==> second.request == Request::<Model>::Ping
            &&& made is Ok && pinged is Ok ==> third == connected(after)
            &&& made is Ok ==> (pinged matches Err(messages) ==> third == failed_outside(messages))
        }),
{
}

} // verus!
