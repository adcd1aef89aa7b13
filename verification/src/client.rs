//! The client of the service: which call each of its operations makes.
//!
//! The client sends nothing itself. Each operation names the method to
//! call, the request to send, the options to call with and whether the
//! caller waits for the answer; whoever holds the connection makes the
//! call.
use vstd::prelude::*;
use crate::service::{
    CreateCharacter,
    DeleteCharacter,
    ReadLatestRevision,
    ReadRevision,
    WriteRevision,
};

verus! {

/// How the messages of a method flow.
#[derive(Debug, PartialEq, Eq, Clone, Copy, Structural)]
pub enum MethodType {
    Unary,
    ClientStreaming,
    ServerStreaming,
    Duplex,
}

/// A method of the service: how its messages flow, and its path.
#[derive(Debug, Clone, Copy)]
pub struct Method {
    pub ty: MethodType,
    pub name: &'static str,
}

/// The operations of the service.
#[derive(Debug, PartialEq, Eq, Clone, Copy, Structural)]
pub enum Rpc {
    Create,
    WriteCharacterRevision,
    ReadCharacterRevision,
    ReadLatestCharacterRevision,
    Delete,
}

/// The path of the method of an operation.
pub open spec fn path_of(rpc: Rpc) -> Seq<char> {
    match rpc {
        Rpc::Create => "/characters.Characters/Create"@,
        Rpc::WriteCharacterRevision => "/characters.Characters/WriteCharacterRevision"@,
        Rpc::ReadCharacterRevision => "/characters.Characters/ReadCharacterRevision"@,
        Rpc::ReadLatestCharacterRevision => "/characters.Characters/ReadLatestCharacterRevision"@,
        Rpc::Delete => "/characters.Characters/Delete"@,
    }
}

/// The options of a call.
#[derive(Debug, PartialEq, Eq, Clone, Copy, Structural)]
pub struct CallOption {
    /// After how many milliseconds the call is given up, if ever.
    pub timeout: Option<u64>,
    /// Whether the call waits for the connection to be ready.
    pub wait_for_ready: bool,
}

impl Default for CallOption {
    fn default() -> (r: CallOption)
        ensures
            r == (CallOption { timeout: None, wait_for_ready: false }),
    {
        CallOption { timeout: None, wait_for_ready: false }
    }
}

/// Whether the caller waits for the answer or is handed a receiver for it.
#[derive(Debug, PartialEq, Eq, Clone, Copy, Structural)]
pub enum Wait {
    Blocking,
    Receiver,
}

/// A call to make: the method, the request to send, the options, and
/// how the caller waits.
#[derive(Debug)]
pub struct Call<'a, Req> {
    pub method: Method,
    pub request: &'a Req,
    pub option: CallOption,
    pub wait: Wait,
}

/// Whether `call` is the unary call of `rpc` that sends `request` with the
/// options `option` and waits as `wait` says.
pub open spec fn calls<Req>(
    call: Call<Req>,
    rpc: Rpc,
    request: &Req,
    option: CallOption,
    wait: Wait,
) -> bool {
    &&& call.method.ty == MethodType::Unary
    &&& call.method.name@ == path_of(rpc)
    &&& call.request == request
    &&& call.option == option
    &&& call.wait == wait
}

/// The options that a call is made with where none are given.
pub open spec fn default_option() -> CallOption {
    CallOption { timeout: None, wait_for_ready: false }
}

/// The method of an operation.
pub fn method(rpc: Rpc) -> (r: Method)
    ensures
        r.ty == MethodType::Unary,
        r.name@ == path_of(rpc),
{
    let name = match rpc {
        Rpc::Create => "/characters.Characters/Create",
        Rpc::WriteCharacterRevision => "/characters.Characters/WriteCharacterRevision",
        Rpc::ReadCharacterRevision => "/characters.Characters/ReadCharacterRevision",
        Rpc::ReadLatestCharacterRevision => "/characters.Characters/ReadLatestCharacterRevision",
        Rpc::Delete => "/characters.Characters/Delete",
    };
    Method { ty: MethodType::Unary, name }
}

/// The methods that the service offers, in the order in which it binds
/// them.
pub fn create_characters() -> (r: Vec<Method>)
    ensures
        r@.len() == 5,
        r@[0].name@ == path_of(Rpc::Create),
        r@[1].name@ == path_of(Rpc::WriteCharacterRevision),
        r@[2].name@ == path_of(Rpc::ReadCharacterRevision),
        r@[3].name@ == path_of(Rpc::ReadLatestCharacterRevision),
        r@[4].name@ == path_of(Rpc::Delete),
        forall|i: int| 0 <= i < 5 ==> (#[trigger] r@[i]).ty == MethodType::Unary,
{
    let mut methods: Vec<Method> = Vec::new();
    methods.push(method(Rpc::Create));
    methods.push(method(Rpc::WriteCharacterRevision));
    methods.push(method(Rpc::ReadCharacterRevision));
    methods.push(method(Rpc::ReadLatestCharacterRevision));
    methods.push(method(Rpc::Delete));
    methods
}

/// Where the service is reached.
#[derive(Debug, Clone)]
pub struct Channel {
    pub target: String,
}

/// The client of the service over one channel.
#[derive(Debug, Clone)]
pub struct CharactersClient {
    channel: Channel,
}

impl CharactersClient {
    /// The channel of the client.
    pub closed spec fn channel_spec(&self) -> Channel {
        self.channel
    }

    pub fn new(channel: Channel) -> (r: CharactersClient)
        ensures
            r.channel_spec() == channel,
    {
        CharactersClient { channel }
    }

    /// The channel of the client.
    pub fn channel(&self) -> (r: &Channel)
        ensures
            *r == self.channel_spec(),
    {
        &self.channel
    }

    pub fn create_opt<'a>(&self, req: &'a CreateCharacter, opt: CallOption) -> (r: Call<
        'a,
        CreateCharacter,
    >)
        ensures
            calls(r, Rpc::Create, req, opt, Wait::Blocking),
    {
        Call { method: method(Rpc::Create), request: req, option: opt, wait: Wait::Blocking }
    }

    pub fn create<'a>(&self, req: &'a CreateCharacter) -> (r: Call<'a, CreateCharacter>)
        ensures
            calls(r, Rpc::Create, req, default_option(), Wait::Blocking),
    {
        self.create_opt(req, CallOption::default())
    }

    pub fn create_async_opt<'a>(&self, req: &'a CreateCharacter, opt: CallOption) -> (r: Call<
        'a,
        CreateCharacter,
    >)
        ensures
            calls(r, Rpc::Create, req, opt, Wait::Receiver),
    {
        Call { method: method(Rpc::Create), request: req, option: opt, wait: Wait::Receiver }
    }

    pub fn create_async<'a>(&self, req: &'a CreateCharacter) -> (r: Call<'a, CreateCharacter>)
        ensures
            calls(r, Rpc::Create, req, default_option(), Wait::Receiver),
    {
        self.create_async_opt(req, CallOption::default())
    }

    pub fn write_character_revision_opt<'a>(&self, req: &'a WriteRevision, opt: CallOption) -> (r: Call<
        'a,
        WriteRevision,
    >)
        ensures
            calls(r, Rpc::WriteCharacterRevision, req, opt, Wait::Blocking),
    {
        Call { method: method(Rpc::WriteCharacterRevision), request: req, option: opt, wait: Wait::Blocking }
    }

    pub fn write_character_revision<'a>(&self, req: &'a WriteRevision) -> (r: Call<
        'a,
        WriteRevision,
    >)
        ensures
            calls(r, Rpc::WriteCharacterRevision, req, default_option(), Wait::Blocking),
    {
        self.write_character_revision_opt(req, CallOption::default())
    }

    pub fn write_character_revision_async_opt<'a>(&self, req: &'a WriteRevision, opt: CallOption) -> (r: Call<
        'a,
        WriteRevision,
    >)
        ensures
            calls(r, Rpc::WriteCharacterRevision, req, opt, Wait::Receiver),
    {
        Call { method: method(Rpc::WriteCharacterRevision), request: req, option: opt, wait: Wait::Receiver }
    }

    pub fn write_character_revision_async<'a>(&self, req: &'a WriteRevision) -> (r: Call<
        'a,
        WriteRevision,
    >)
        ensures
            calls(r, Rpc::WriteCharacterRevision, req, default_option(), Wait::Receiver),
    {
        self.write_character_revision_async_opt(req, CallOption::default())
    }

    pub fn read_character_revision_opt<'a>(&self, req: &'a ReadRevision, opt: CallOption) -> (r: Call<
        'a,
        ReadRevision,
    >)
        ensures
            calls(r, Rpc::ReadCharacterRevision, req, opt, Wait::Blocking),
    {
        Call { method: method(Rpc::ReadCharacterRevision), request: req, option: opt, wait: Wait::Blocking }
    }

    pub fn read_character_revision<'a>(&self, req: &'a ReadRevision) -> (r: Call<'a, ReadRevision>)
        ensures
            calls(r, Rpc::ReadCharacterRevision, req, default_option(), Wait::Blocking),
    {
        self.read_character_revision_opt(req, CallOption::default())
    }

    pub fn read_character_revision_async_opt<'a>(&self, req: &'a ReadRevision, opt: CallOption) -> (r: Call<
        'a,
        ReadRevision,
    >)
        ensures
            calls(r, Rpc::ReadCharacterRevision, req, opt, Wait::Receiver),
    {
        Call { method: method(Rpc::ReadCharacterRevision), request: req, option: opt, wait: Wait::Receiver }
    }

    pub fn read_character_revision_async<'a>(&self, req: &'a ReadRevision) -> (r: Call<
        'a,
        ReadRevision,
    >)
        ensures
            calls(r, Rpc::ReadCharacterRevision, req, default_option(), Wait::Receiver),
    {
        self.read_character_revision_async_opt(req, CallOption::default())
    }

    pub fn read_latest_character_revision_opt<'a>(&self, req: &'a ReadLatestRevision, opt: CallOption) -> (r: Call<
        'a,
        ReadLatestRevision,
    >)
        ensures
            calls(r, Rpc::ReadLatestCharacterRevision, req, opt, Wait::Blocking),
    {
        Call { method: method(Rpc::ReadLatestCharacterRevision), request: req, option: opt, wait: Wait::Blocking }
    }

    pub fn read_latest_character_revision<'a>(&self, req: &'a ReadLatestRevision) -> (r: Call<
        'a,
        ReadLatestRevision,
    >)
        ensures
            calls(r, Rpc::ReadLatestCharacterRevision, req, default_option(), Wait::Blocking),
    {
        self.read_latest_character_revision_opt(req, CallOption::default())
    }

    pub fn read_latest_character_revision_async_opt<'a>(&self, req: &'a ReadLatestRevision, opt: CallOption) -> (r: Call<
        'a,
        ReadLatestRevision,
    >)
        ensures
            calls(r, Rpc::ReadLatestCharacterRevision, req, opt, Wait::Receiver),
    {
        Call { method: method(Rpc::ReadLatestCharacterRevision), request: req, option: opt, wait: Wait::Receiver }
    }

    pub fn read_latest_character_revision_async<'a>(&self, req: &'a ReadLatestRevision) -> (r: Call<
        'a,
        ReadLatestRevision,
    >)
        ensures
            calls(r, Rpc::ReadLatestCharacterRevision, req, default_option(), Wait::Receiver),
    {
        self.read_latest_character_revision_async_opt(req, CallOption::default())
    }

    pub fn delete_opt<'a>(&self, req: &'a DeleteCharacter, opt: CallOption) -> (r: Call<
        'a,
        DeleteCharacter,
    >)
        ensures
            calls(r, Rpc::Delete, req, opt, Wait::Blocking),
    {
        Call { method: method(Rpc::Delete), request: req, option: opt, wait: Wait::Blocking }
    }

    pub fn delete<'a>(&self, req: &'a DeleteCharacter) -> (r: Call<'a, DeleteCharacter>)
        ensures
            calls(r, Rpc::Delete, req, default_option(), Wait::Blocking),
    {
        self.delete_opt(req, CallOption::default())
    }

    pub fn delete_async_opt<'a>(&self, req: &'a DeleteCharacter, opt: CallOption) -> (r: Call<
        'a,
        DeleteCharacter,
    >)
        ensures
            calls(r, Rpc::Delete, req, opt, Wait::Receiver),
    {
        Call { method: method(Rpc::Delete), request: req, option: opt, wait: Wait::Receiver }
    }

    pub fn delete_async<'a>(&self, req: &'a DeleteCharacter) -> (r: Call<'a, DeleteCharacter>)
        ensures
            calls(r, Rpc::Delete, req, default_option(), Wait::Receiver),
    {
        self.delete_async_opt(req, CallOption::default())
    }
}

} // verus!
