//! A command as it was called.

use vstd::prelude::*;

use crate::list::extend_by;
use crate::options::{Options, OptionsData};

verus! {

/// The names that lead to the command, its arguments and its options.
pub struct Invocation {
    pub path: Vec<String>,
    pub args: Vec<String>,
    pub options: Options,
}

pub ghost struct InvocationData {
    pub path: Seq<Seq<char>>,
    pub args: Seq<Seq<char>>,
    pub options: OptionsData,
}

impl View for Invocation {
    type V = InvocationData;

    open spec fn view(&self) -> InvocationData {
        InvocationData {
            path: self.path.deep_view(),
            args: self.args.deep_view(),
            options: self.options@,
        }
    }
}

impl InvocationData {
    /// Whether users and lists are named by identifier.
    pub open spec fn by_id(self) -> bool {
        self.options.flag("id"@)
    }
}

/// The arguments behind the first `n`.
pub fn args_behind(args: &Vec<String>, n: usize) -> (r: Vec<String>)
    requires
        n <= args@.len(),
    ensures
        r.deep_view() == args.deep_view().skip(n as int),
{
    let ghost rest = args.deep_view().skip(n as int);
    let mut out: Vec<String> = Vec::new();
    let mut i: usize = n;
    assert(out.deep_view() =~= rest.take(0));
    while i < args.len()
        invariant
            n <= i <= args.len(),
            rest == args.deep_view().skip(n as int),
            out.deep_view() == rest.take(i - n),
        decreases args.len() - i,
    {
        extend_by(&mut out, args[i].clone());
        i += 1;
        assert(out.deep_view() =~= rest.take(i - n));
    }
    assert(rest.take(i - n) =~= rest);
    out
}

/// The first argument, or the name of the active account.
pub open spec fn first_or_active(args: Seq<Seq<char>>, active: Seq<char>) -> Seq<char> {
    if args.len() > 0 {
        args[0]
    } else {
        active
    }
}

pub fn arg_or_active_name(args: &Vec<String>, active_name: &str) -> (r: String)
    ensures
        r@ == first_or_active(args.deep_view(), active_name@),
{
    assert(args.deep_view().len() == args@.len());
    if args.len() > 0 {
        args[0].clone()
    } else {
        active_name.to_owned()
    }
}

/// The argument at place `i`, where there is one.
pub open spec fn arg_at(args: Seq<Seq<char>>, i: int) -> Option<Seq<char>> {
    if 0 <= i < args.len() {
        Some(args[i])
    } else {
        None
    }
}

pub fn get_arg(args: &Vec<String>, i: usize) -> (r: Option<&String>)
    ensures
        r.deep_view() == arg_at(args.deep_view(), i as int),
{
    assert(args.deep_view().len() == args@.len());
    if i < args.len() {
        Some(&args[i])
    } else {
        None
    }
}

/// A sentence on what the account did.
pub open spec fn told(who: Seq<char>, verb: Seq<char>, what: Seq<char>) -> Seq<char> {
    "@"@ + who + verb + what + "."@
}

pub fn tell(who: &str, verb: &str, what: &str) -> (r: String)
    ensures
        r@ == told(who@, verb@, what@),
{
    let mut r = "@".to_owned();
    r.append(who);
    r.append(verb);
    r.append(what);
    r.append(".");
    r
}

} // verus!
