use crate::asset::{Addr, PriceAsset, PriceAssetView};
use vstd::prelude::*;

verus! {

/// An instruction that the engine hands to the ledger together with a change
/// of state. The ledger carries out every instruction of a response, or none.
#[derive(Debug, PartialEq)]
pub enum Instruction {
    /// Transfer the item `token_id` of the contract `nft_contract` to
    /// `recipient`.
    TransferNft { nft_contract: Addr, recipient: Addr, token_id: String },
    /// Transfer `amount` of `asset` to `recipient`.
    TransferAsset { asset: PriceAsset, amount: u128, recipient: Addr },
}

/// Mathematical model of an [`Instruction`].
pub enum InstructionView {
    TransferNft { nft_contract: Seq<char>, recipient: Seq<char>, token_id: Seq<char> },
    TransferAsset { asset: PriceAssetView, amount: u128, recipient: Seq<char> },
}

impl View for Instruction {
    type V = InstructionView;

    open spec fn view(&self) -> InstructionView {
        match *self {
            Instruction::TransferNft { nft_contract, recipient, token_id } => {
                InstructionView::TransferNft {
                    nft_contract: nft_contract@,
                    recipient: recipient@,
                    token_id: token_id@,
                }
            },
            Instruction::TransferAsset { asset, amount, recipient } => {
                InstructionView::TransferAsset { asset: asset@, amount, recipient: recipient@ }
            },
        }
    }
}

impl Clone for Instruction {
    fn clone(&self) -> (r: Instruction)
        ensures
            r == *self,
    {
        match self {
            Instruction::TransferNft { nft_contract, recipient, token_id } => {
                Instruction::TransferNft {
                    nft_contract: nft_contract.clone(),
                    recipient: recipient.clone(),
                    token_id: token_id.clone(),
                }
            },
            Instruction::TransferAsset { asset, amount, recipient } => {
                Instruction::TransferAsset {
                    asset: asset.clone(),
                    amount: *amount,
                    recipient: recipient.clone(),
                }
            },
        }
    }
}

impl InstructionView {
    /// The amount of the price asset that the instruction moves out of
    /// escrow: the amount of an asset transfer, nothing for an item.
    pub open spec fn asset_amount(self) -> nat {
        match self {
            InstructionView::TransferNft { .. } => 0,
            InstructionView::TransferAsset { amount, .. } => amount as nat,
        }
    }
}

/// The amount of the price asset that a sequence of instructions moves out
/// of escrow.
pub open spec fn total_asset_amount(instructions: Seq<InstructionView>) -> nat
    decreases instructions.len(),
{
    if instructions.len() == 0 {
        0
    } else {
        total_asset_amount(instructions.drop_last()) + instructions.last().asset_amount()
    }
}

/// The models of a sequence of instructions.
pub open spec fn instruction_views(instructions: Seq<Instruction>) -> Seq<InstructionView> {
    instructions.map_values(|m: Instruction| m@)
}

/// A key and a value that describe what an operation did.
#[derive(Debug, PartialEq)]
pub struct Attribute {
    pub key: String,
    pub value: String,
}

/// Mathematical model of an [`Attribute`].
pub struct AttributeView {
    pub key: Seq<char>,
    pub value: Seq<char>,
}

impl View for Attribute {
    type V = AttributeView;

    open spec fn view(&self) -> AttributeView {
        AttributeView { key: self.key@, value: self.value@ }
    }
}

impl Clone for Attribute {
    fn clone(&self) -> (r: Attribute)
        ensures
            r == *self,
    {
        Attribute { key: self.key.clone(), value: self.value.clone() }
    }
}

/// The attribute with the key `key` and the value `value`.
pub fn attr(key: &str, value: &str) -> (attribute: Attribute)
    ensures
        attribute@ == (AttributeView { key: key@, value: value@ }),
{
    Attribute { key: key.to_string(), value: value.to_string() }
}

/// What an operation answers when it succeeds: attributes that describe it,
/// and the instructions to carry out, in order.
#[derive(Debug, PartialEq)]
pub struct Response {
    pub attributes: Vec<Attribute>,
    pub messages: Vec<Instruction>,
}

/// Mathematical model of a [`Response`].
pub struct ResponseView {
    pub attributes: Seq<AttributeView>,
    pub messages: Seq<InstructionView>,
}

impl View for Response {
    type V = ResponseView;

    open spec fn view(&self) -> ResponseView {
        ResponseView {
            attributes: self.attributes@.map_values(|a: Attribute| a@),
            messages: instruction_views(self.messages@),
        }
    }
}

impl Response {
    /// The response without attributes and without instructions.
    pub fn new() -> (response: Response)
        ensures
            response@ == (ResponseView { attributes: seq![], messages: seq![] }),
    {
        let response = Response { attributes: Vec::new(), messages: Vec::new() };
        assert(response@.attributes =~= seq![]);
        assert(response@.messages =~= seq![]);
        response
    }

    /// The response with one more attribute at its end.
    pub fn add_attribute(self, key: &str, value: &str) -> (response: Response)
        ensures
            response@ == (ResponseView {
                attributes: self@.attributes.push(AttributeView { key: key@, value: value@ }),
                messages: self@.messages,
            }),
    {
        let mut response = self;
        response.attributes.push(attr(key, value));
        assert(response@.attributes =~= self@.attributes.push(
            AttributeView { key: key@, value: value@ },
        ));
        response
    }

    /// The response with one more instruction at its end.
    pub fn add_message(self, message: Instruction) -> (response: Response)
        ensures
            response@ == (ResponseView {
                attributes: self@.attributes,
                messages: self@.messages.push(message@),
            }),
    {
        let mut response = self;
        response.messages.push(message);
        assert(response@.messages =~= self@.messages.push(message@));
        response
    }

    /// The response with the given instructions, in their order, at its end.
    pub fn add_messages(self, messages: Vec<Instruction>) -> (response: Response)
        ensures
            response@ == (ResponseView {
                attributes: self@.attributes,
                messages: self@.messages + instruction_views(messages@),
            }),
    {
        let mut response = self;
        let mut rest = messages;
        response.messages.append(&mut rest);
        assert(response@.messages =~= self@.messages + instruction_views(messages@));
        response
    }
}

/// The digit `d`, below ten, as a character.
pub open spec fn digit_char(d: nat) -> char {
    if d == 0 {
        '0'
    } else if d == 1 {
        '1'
    } else if d == 2 {
        '2'
    } else if d == 3 {
        '3'
    } else if d == 4 {
        '4'
    } else if d == 5 {
        '5'
    } else if d == 6 {
        '6'
    } else if d == 7 {
        '7'
    } else if d == 8 {
        '8'
    } else {
        '9'
    }
}

/// The number `n` in decimal digits, without leading zeros.
pub open spec fn decimal(n: nat) -> Seq<char>
    decreases n,
{
    if n < 10 {
        seq![digit_char(n)]
    } else {
        decimal(n / 10).push(digit_char(n % 10))
    }
}

/// The digit `d` as text.
fn digit_text(d: u8) -> (text: &'static str)
    requires
        d < 10,
    ensures
        text@ == seq![digit_char(d as nat)],
{
    proof {
        reveal_strlit("0");
        reveal_strlit("1");
        reveal_strlit("2");
        reveal_strlit("3");
        reveal_strlit("4");
        reveal_strlit("5");
        reveal_strlit("6");
        reveal_strlit("7");
        reveal_strlit("8");
        reveal_strlit("9");
    }
    let text = if d == 0 {
        "0"
    } else if d == 1 {
        "1"
    } else if d == 2 {
        "2"
    } else if d == 3 {
        "3"
    } else if d == 4 {
        "4"
    } else if d == 5 {
        "5"
    } else if d == 6 {
        "6"
    } else if d == 7 {
        "7"
    } else if d == 8 {
        "8"
    } else {
        "9"
    };
    assert(text@ =~= seq![digit_char(d as nat)]);
    text
}

/// The number `n` in decimal digits, without leading zeros.
pub fn decimal_string(n: u128) -> (text: String)
    ensures
        text@ == decimal(n as nat),
    decreases n,
{
    if n < 10 {
        digit_text(n as u8).to_string()
    } else {
        let mut text = decimal_string(n / 10);
        text.append(digit_text((n % 10) as u8));
        assert(text@ =~= decimal((n / 10) as nat).push(digit_char((n % 10) as nat)));
        text
    }
}

} // verus!
