//! Argument lists for the resolver's administrative command. The engine
//! only writes them down; running the command is the caller's part.

use vstd::prelude::*;
use vstd::string::StringExecFns;

verus! {

/// The arguments that ask the resolver to reload.
pub open spec fn reload_args() -> Seq<Seq<char>> {
    seq!["restartdns"@]
}

/// The arguments of a request about one entry of a config store: the
/// request's name, the entry's two fields, and the word that keeps the
/// resolver from reloading after this request alone.
pub open spec fn entry_args(verb: Seq<char>, first: Seq<char>, second: Seq<char>) -> Seq<
    Seq<char>,
> {
    seq!["-a"@, verb, first, second, "false"@]
}

/// The arguments that add a static reservation.
pub open spec fn reservation_args(mac: Seq<char>, ip: Seq<char>, hostname: Seq<char>) -> Seq<
    Seq<char>,
> {
    seq!["-a"@, "addstaticdhcp"@, mac, ip, hostname]
}

/// The arguments of the reload request.
pub fn restart_dns() -> (args: Vec<String>)
    ensures
        args.deep_view() == reload_args(),
{
    let mut args: Vec<String> = Vec::new();
    args.push(String::from_str("restartdns"));
    assert(args.deep_view() =~= reload_args());
    args
}

/// The arguments of the request `verb` for the entry `(first, second)`.
pub fn entry_command(verb: &str, first: &str, second: &str) -> (args: Vec<String>)
    ensures
        args.deep_view() == entry_args(verb@, first@, second@),
{
    let mut args: Vec<String> = Vec::new();
    args.push(String::from_str("-a"));
    args.push(String::from_str(verb));
    args.push(String::from_str(first));
    args.push(String::from_str(second));
    args.push(String::from_str("false"));
    assert(args.deep_view() =~= entry_args(verb@, first@, second@));
    args
}

/// The arguments that add the reservation `(mac, ip, hostname)`.
pub fn reservation_command(mac: &str, ip: &str, hostname: &str) -> (args: Vec<String>)
    ensures
        args.deep_view() == reservation_args(mac@, ip@, hostname@),
{
    let mut args: Vec<String> = Vec::new();
    args.push(String::from_str("-a"));
    args.push(String::from_str("addstaticdhcp"));
    args.push(String::from_str(mac));
    args.push(String::from_str(ip));
    args.push(String::from_str(hostname));
    assert(args.deep_view() =~= reservation_args(mac@, ip@, hostname@));
    args
}

/// A copy of `args`.
pub fn copy_args(args: &Vec<String>) -> (out: Vec<String>)
    ensures
        out.deep_view() == args.deep_view(),
{
    let mut out: Vec<String> = Vec::new();
    let mut i: usize = 0;
    while i < args.len()
        invariant
            i <= args.len(),
            out.len() == i,
            forall|j: int| 0 <= j < i ==> out@[j]@ == args@[j]@,
        decreases args.len() - i,
    {
        out.push(args[i].clone());
        i += 1;
    }
    assert(out.deep_view() =~= args.deep_view());
    out
}

} // verus!
