use convert_case::Case;
use convert_case::Casing;
use vstd::prelude::*;

verus! {

/// The name in Pascal case, as `convert_case` writes it.
pub uninterp spec fn pascal_case(name: Seq<char>) -> Seq<char>;

/// The name in snake case, as `convert_case` writes it.
pub uninterp spec fn snake_case(name: Seq<char>) -> Seq<char>;

/// `Casing::to_case` with `Case::Pascal`: the name with its words
/// capitalised and joined without a delimiter.
#[verifier::external_body]
fn to_pascal(name: &str) -> (s: String)
    ensures
        s@ == pascal_case(name@),
{
    name.to_case(Case::Pascal)
}

/// `Casing::to_case` with `Case::Snake`: the name with its words in lower
/// case and joined by underscores.
#[verifier::external_body]
fn to_snake(name: &str) -> (s: String)
    ensures
        s@ == snake_case(name@),
{
    name.to_case(Case::Snake)
}

/// The text followed by the suffix.
pub fn with_suffix(base: String, suffix: &str) -> (s: String)
    ensures
        s@ == base@ + suffix@,
{
    let mut s = base;
    s.push_str(suffix);
    s
}

/// The prefix followed by the text.
pub fn with_prefix(prefix: &str, base: String) -> (s: String)
    ensures
        s@ == prefix@ + base@,
{
    let mut s = prefix.to_string();
    s.push_str(base.as_str());
    s
}

/// The name of a variant of a generated union: the name of the method or
/// message in Pascal case.
pub fn variant_name(name: &str) -> (s: String)
    ensures
        s@ == pascal_case(name@),
{
    to_pascal(name)
}

/// The name of the function that handles or calls a method: the name of the
/// method in snake case.
pub fn method_fn(name: &str) -> (s: String)
    ensures
        s@ == snake_case(name@),
{
    to_snake(name)
}

/// The name of the function of a client that reserves a buffer for a
/// method or message.
pub fn method_ref_fn(name: &str) -> (s: String)
    ensures
        s@ == snake_case(name@) + "_ref"@,
{
    with_suffix(to_snake(name), "_ref")
}

/// The name of the union of the requests of a service.
pub fn request_enum(service: &str) -> (s: String)
    ensures
        s@ == pascal_case(service@) + "Req"@,
{
    with_suffix(to_pascal(service), "Req")
}

/// The name of the union of the replies of a service.
pub fn reply_enum(service: &str) -> (s: String)
    ensures
        s@ == pascal_case(service@) + "Ret"@,
{
    with_suffix(to_pascal(service), "Ret")
}

/// The name of the union of the messages of a bus.
pub fn message_enum(bus: &str) -> (s: String)
    ensures
        s@ == pascal_case(bus@) + "Msg"@,
{
    with_suffix(to_pascal(bus), "Msg")
}

/// The name of the trait that the handler of a service or bus implements.
pub fn service_trait(name: &str) -> (s: String)
    ensures
        s@ == pascal_case(name@) + "Service"@,
{
    with_suffix(to_pascal(name), "Service")
}

/// The name of the serving side of a service or bus.
pub fn server_struct(name: &str) -> (s: String)
    ensures
        s@ == pascal_case(name@) + "Server"@,
{
    with_suffix(to_pascal(name), "Server")
}

/// The name of the calling side of a service or the sending side of a bus.
pub fn client_struct(name: &str) -> (s: String)
    ensures
        s@ == pascal_case(name@) + "Client"@,
{
    with_suffix(to_pascal(name), "Client")
}

/// The name of the plain receiving side of a bus.
pub fn receiver_struct(bus: &str) -> (s: String)
    ensures
        s@ == pascal_case(bus@) + "Rx"@,
{
    with_suffix(to_pascal(bus), "Rx")
}

/// The name of the handle on a request that is being written.
pub fn call_ref(method: &str) -> (s: String)
    ensures
        s@ == pascal_case(method@) + "CallRef"@,
{
    with_suffix(to_pascal(method), "CallRef")
}

/// The name of the handle on a reply that was received.
pub fn ret_ref(method: &str) -> (s: String)
    ensures
        s@ == pascal_case(method@) + "RetRef"@,
{
    with_suffix(to_pascal(method), "RetRef")
}

/// The name of the handle on a message that is being written.
pub fn send_ref(msg: &str) -> (s: String)
    ensures
        s@ == pascal_case(msg@) + "SendRef"@,
{
    with_suffix(to_pascal(msg), "SendRef")
}

/// The name of the marker field that a generated type has for a generic
/// type parameter.
pub fn phantom_field(param: &str) -> (s: String)
    ensures
        s@ == "phantom_"@ + snake_case(param@),
{
    with_prefix("phantom_", to_snake(param))
}

} // verus!
