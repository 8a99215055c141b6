//! What a handler answers: attributes for whoever reads the outcome, and
//! messages for the chain to carry out, in the order given.

use vstd::prelude::*;
use vstd::string::*;
use crate::events::{Attribute, AttributeView};
use crate::host::{Coin, CoinView};
use crate::msg::{
    AnchorExecuteMsg,
    Cw20ExecuteMsg,
    Cw20ExecuteMsgView,
    ExecuteMsg,
    ExecuteMsgView,
};

verus! {

/// A transfer of coins out of the contract's balance.
#[derive(Debug, Clone, PartialEq, Eq)]
pub enum BankMsg {
    Send { to_address: String, amount: Vec<Coin> },
}

/// A [`BankMsg`] with its texts as sequences of characters.
pub ghost enum BankMsgView {
    Send { to_address: Seq<char>, amount: Seq<CoinView> },
}

impl DeepView for BankMsg {
    type V = BankMsgView;

    open spec fn deep_view(&self) -> BankMsgView {
        match self {
            BankMsg::Send { to_address, amount } => BankMsgView::Send {
                to_address: to_address@,
                amount: amount.deep_view(),
            },
        }
    }
}

/// What a call to a contract says, before it is put into bytes.
#[derive(Debug, Clone, PartialEq, Eq)]
pub enum Payload {
    /// A call to this contract.
    Contract(ExecuteMsg),
    /// A call to the lending venue.
    Anchor(AnchorExecuteMsg),
    /// A call to the wrapper token.
    Token(Cw20ExecuteMsg),
}

/// A [`Payload`] with its texts as sequences of characters.
pub ghost enum PayloadView {
    Contract(ExecuteMsgView),
    Anchor(AnchorExecuteMsg),
    Token(Cw20ExecuteMsgView),
}

impl DeepView for Payload {
    type V = PayloadView;

    open spec fn deep_view(&self) -> PayloadView {
        match self {
            Payload::Contract(m) => PayloadView::Contract(m.deep_view()),
            Payload::Anchor(m) => PayloadView::Anchor(*m),
            Payload::Token(m) => PayloadView::Token(m.deep_view()),
        }
    }
}

/// A call to a contract, with the coins sent along.
#[derive(Debug, Clone, PartialEq, Eq)]
pub enum WasmMsg {
    Execute { contract_addr: String, msg: Payload, funds: Vec<Coin> },
}

/// A [`WasmMsg`] with its texts as sequences of characters.
pub ghost enum WasmMsgView {
    Execute { contract_addr: Seq<char>, msg: PayloadView, funds: Seq<CoinView> },
}

impl DeepView for WasmMsg {
    type V = WasmMsgView;

    open spec fn deep_view(&self) -> WasmMsgView {
        match self {
            WasmMsg::Execute { contract_addr, msg, funds } => WasmMsgView::Execute {
                contract_addr: contract_addr@,
                msg: msg.deep_view(),
                funds: funds.deep_view(),
            },
        }
    }
}

/// Something for the chain to carry out.
#[derive(Debug, Clone, PartialEq, Eq)]
pub enum CosmosMsg {
    Bank(BankMsg),
    Wasm(WasmMsg),
}

/// A [`CosmosMsg`] with its texts as sequences of characters.
pub ghost enum CosmosMsgView {
    Bank(BankMsgView),
    Wasm(WasmMsgView),
}

impl DeepView for CosmosMsg {
    type V = CosmosMsgView;

    open spec fn deep_view(&self) -> CosmosMsgView {
        match self {
            CosmosMsg::Bank(m) => CosmosMsgView::Bank(m.deep_view()),
            CosmosMsg::Wasm(m) => CosmosMsgView::Wasm(m.deep_view()),
        }
    }
}

/// When the outcome of a message comes back to the contract as a reply.
#[derive(Debug, Clone, Copy, PartialEq, Eq)]
pub enum ReplyOn {
    Always,
    Error,
    Success,
    Never,
}

/// A message with the tag under which its outcome comes back, if it does.
#[derive(Debug, Clone, PartialEq, Eq)]
pub struct SubMsg {
    pub id: u64,
    pub msg: CosmosMsg,
    pub gas_limit: Option<u64>,
    pub reply_on: ReplyOn,
}

/// A [`SubMsg`] with its texts as sequences of characters.
pub ghost struct SubMsgView {
    pub id: u64,
    pub msg: CosmosMsgView,
    pub gas_limit: Option<u64>,
    pub reply_on: ReplyOn,
}

impl DeepView for SubMsg {
    type V = SubMsgView;

    open spec fn deep_view(&self) -> SubMsgView {
        SubMsgView {
            id: self.id,
            msg: self.msg.deep_view(),
            gas_limit: self.gas_limit,
            reply_on: self.reply_on,
        }
    }
}

impl SubMsgView {
    /// The message that is carried out with no reply.
    pub open spec fn plain(msg: CosmosMsgView) -> SubMsgView {
        SubMsgView { id: 0, msg, gas_limit: None, reply_on: ReplyOn::Never }
    }

    /// The call of the contract at `contract` to itself, whose success comes
    /// back under the tag `id`.
    pub open spec fn to_self(
        id: u64,
        contract: Seq<char>,
        msg: ExecuteMsgView,
        funds: Seq<CoinView>,
    ) -> SubMsgView {
        SubMsgView {
            id,
            msg: CosmosMsgView::Wasm(
                WasmMsgView::Execute {
                    contract_addr: contract,
                    msg: PayloadView::Contract(msg),
                    funds,
                },
            ),
            gas_limit: None,
            reply_on: ReplyOn::Success,
        }
    }
}

impl SubMsg {
    /// The message that is carried out with no reply.
    pub fn new(msg: CosmosMsg) -> (sub: SubMsg)
        ensures
            sub.deep_view() == SubMsgView::plain(msg.deep_view()),
    {
        SubMsg { id: 0, msg, gas_limit: None, reply_on: ReplyOn::Never }
    }

    /// The call of the contract at `contract` to itself, whose success comes
    /// back under the tag `id`.
    pub fn to_self(id: u64, contract: String, msg: ExecuteMsg, funds: Vec<Coin>) -> (sub: SubMsg)
        ensures
            sub.deep_view() == SubMsgView::to_self(
                id,
                contract@,
                msg.deep_view(),
                funds.deep_view(),
            ),
    {
        SubMsg {
            id,
            msg: CosmosMsg::Wasm(
                WasmMsg::Execute { contract_addr: contract, msg: Payload::Contract(msg), funds },
            ),
            gas_limit: None,
            reply_on: ReplyOn::Success,
        }
    }
}

/// A handler's answer.
#[derive(Debug, Clone, PartialEq, Eq)]
pub struct Response {
    pub messages: Vec<SubMsg>,
    pub attributes: Vec<Attribute>,
}

/// A [`Response`] with its texts as sequences of characters.
pub ghost struct ResponseView {
    pub messages: Seq<SubMsgView>,
    pub attributes: Seq<AttributeView>,
}

impl DeepView for Response {
    type V = ResponseView;

    open spec fn deep_view(&self) -> ResponseView {
        ResponseView {
            messages: self.messages.deep_view(),
            attributes: self.attributes.deep_view(),
        }
    }
}

impl ResponseView {
    /// The answer that says nothing and asks for nothing.
    pub open spec fn empty() -> ResponseView {
        ResponseView { messages: Seq::empty(), attributes: Seq::empty() }
    }

    /// This answer with one more attribute.
    pub open spec fn add_attribute(self, key: Seq<char>, value: Seq<char>) -> ResponseView {
        ResponseView { attributes: self.attributes.push(AttributeView { key, value }), ..self }
    }

    /// This answer with one more message, carried out with no reply.
    pub open spec fn add_message(self, msg: CosmosMsgView) -> ResponseView {
        ResponseView { messages: self.messages.push(SubMsgView::plain(msg)), ..self }
    }

    /// This answer with one more message.
    pub open spec fn add_submessage(self, sub: SubMsgView) -> ResponseView {
        ResponseView { messages: self.messages.push(sub), ..self }
    }
}

impl Response {
    /// The answer that says nothing and asks for nothing.
    pub fn new() -> (response: Response)
        ensures
            response.deep_view() == ResponseView::empty(),
    {
        let response = Response { messages: Vec::new(), attributes: Vec::new() };
        assert(response.messages.deep_view() =~= Seq::<SubMsgView>::empty());
        assert(response.attributes.deep_view() =~= Seq::<AttributeView>::empty());
        response
    }

    /// Adds an attribute.
    pub fn add_attribute(self, key: &str, value: String) -> (response: Response)
        ensures
            response.deep_view() == self.deep_view().add_attribute(key@, value@),
    {
        let mut response = self;
        let ghost before = response.attributes.deep_view();
        let a = Attribute { key: key.to_owned(), value };
        response.attributes.push(a);
        assert(response.attributes.deep_view() =~= before.push(a.deep_view()));
        response
    }

    /// Adds a message that is carried out with no reply.
    pub fn add_message(self, msg: CosmosMsg) -> (response: Response)
        ensures
            response.deep_view() == self.deep_view().add_message(msg.deep_view()),
    {
        self.add_submessage(SubMsg::new(msg))
    }

    /// Adds a message.
    pub fn add_submessage(self, sub: SubMsg) -> (response: Response)
        ensures
            response.deep_view() == self.deep_view().add_submessage(sub.deep_view()),
    {
        let mut response = self;
        let ghost before = response.messages.deep_view();
        let ghost added = sub.deep_view();
        response.messages.push(sub);
        assert(response.messages.deep_view() =~= before.push(added));
        response
    }
}

impl Default for Response {
    fn default() -> (response: Response)
        ensures
            response.deep_view() == ResponseView::empty(),
    {
        Response::new()
    }
}

} // verus!
