use vstd::prelude::*;
use vstd::string::StringExecFns;

verus! {

/// The character of a decimal digit.
pub open spec fn digit_char(d: nat) -> char
    recommends
        d < 10,
{
    (48 + d) as char
}

/// The decimal representation of `n`, without leading zeros.
pub open spec fn decimal_text(n: nat) -> Seq<char>
    decreases n,
{
    if n < 10 {
        seq![digit_char(n)]
    } else {
        decimal_text(n / 10) + seq![digit_char(n % 10)]
    }
}

fn digit_str(d: u64) -> (s: &'static str)
    requires
        d < 10,
    ensures
        s@ == seq![digit_char(d as nat)],
{
    match d {
        0 => { proof { reveal_strlit("0"); } "0" },
        1 => { proof { reveal_strlit("1"); } "1" },
        2 => { proof { reveal_strlit("2"); } "2" },
        3 => { proof { reveal_strlit("3"); } "3" },
        4 => { proof { reveal_strlit("4"); } "4" },
        5 => { proof { reveal_strlit("5"); } "5" },
        6 => { proof { reveal_strlit("6"); } "6" },
        7 => { proof { reveal_strlit("7"); } "7" },
        8 => { proof { reveal_strlit("8"); } "8" },
        _ => { proof { reveal_strlit("9"); } "9" },
    }
}

/// Formats `n` in decimal, as `u64`'s `to_string` does.
pub fn u64_to_string(n: u64) -> (s: String)
    ensures
        s@ == decimal_text(n as nat),
    decreases n,
{
    if n < 10 {
        digit_str(n).to_owned()
    } else {
        let prefix = u64_to_string(n / 10);
        prefix.concat(digit_str(n % 10))
    }
}


/// The text of a boolean, as `bool`'s `to_string` writes it.
pub open spec fn bool_text(b: bool) -> Seq<char> {
    if b { "true"@ } else { "false"@ }
}

/// Formats `b` as `bool`'s `to_string` does.
pub fn bool_to_string(b: bool) -> (s: String)
    ensures
        s@ == bool_text(b),
{
    if b { "true".to_owned() } else { "false".to_owned() }
}

/// A key and a value that a response reports.
#[derive(Debug)]
pub struct Attribute {
    pub key: String,
    pub value: String,
}

impl View for Attribute {
    type V = (Seq<char>, Seq<char>);

    open spec fn view(&self) -> (Seq<char>, Seq<char>) {
        (self.key@, self.value@)
    }
}

/// A call of another contract that the response asks the chain to make, with
/// no funds attached: the contract's address and the JSON message it receives.
#[derive(Debug)]
pub struct WasmExecuteMsg {
    pub contract_addr: String,
    pub msg: Vec<u8>,
}

impl View for WasmExecuteMsg {
    type V = (Seq<char>, Seq<u8>);

    open spec fn view(&self) -> (Seq<char>, Seq<u8>) {
        (self.contract_addr@, self.msg@)
    }
}

/// What a successful request answers: the messages to dispatch and the
/// attributes to report, each in the order in which they were added.
#[derive(Debug)]
pub struct ContractResponse {
    pub messages: Vec<WasmExecuteMsg>,
    pub attributes: Vec<Attribute>,
}

/// The view of a response.
pub struct ResponseView {
    pub messages: Seq<(Seq<char>, Seq<u8>)>,
    pub attributes: Seq<(Seq<char>, Seq<char>)>,
}

impl View for ContractResponse {
    type V = ResponseView;

    open spec fn view(&self) -> ResponseView {
        ResponseView {
            messages: self.messages@.map_values(|m: WasmExecuteMsg| m@),
            attributes: self.attributes@.map_values(|a: Attribute| a@),
        }
    }
}

/// A response with no message and no attribute.
pub open spec fn empty_response() -> ResponseView {
    ResponseView { messages: seq![], attributes: seq![] }
}

impl ResponseView {
    /// This response with one more attribute at the end.
    pub open spec fn with_attribute(self, key: Seq<char>, value: Seq<char>) -> ResponseView {
        ResponseView { attributes: self.attributes.push((key, value)), ..self }
    }

    /// This response with one more message at the end.
    pub open spec fn with_message(self, msg: (Seq<char>, Seq<u8>)) -> ResponseView {
        ResponseView { messages: self.messages.push(msg), ..self }
    }
}

impl ContractResponse {
    /// A response with no message and no attribute.
    pub fn new() -> (r: ContractResponse)
        ensures
            r@ == empty_response(),
    {
        let r = ContractResponse { messages: Vec::new(), attributes: Vec::new() };
        assert(r@.messages =~= seq![]);
        assert(r@.attributes =~= seq![]);
        r
    }

    /// Adds an attribute at the end.
    pub fn add_attribute(self, key: &str, value: String) -> (r: ContractResponse)
        ensures
            r@ == self@.with_attribute(key@, value@),
    {
        let mut r = self;
        r.attributes.push(Attribute { key: key.to_owned(), value });
        assert(r@.attributes =~= self@.attributes.push((key@, value@)));
        r
    }

    /// Adds a message at the end.
    pub fn add_message(self, msg: WasmExecuteMsg) -> (r: ContractResponse)
        ensures
            r@ == self@.with_message(msg@),
    {
        let mut r = self;
        let ghost m = msg@;
        r.messages.push(msg);
        assert(r@.messages =~= self@.messages.push(m));
        r
    }
}

} // verus!
