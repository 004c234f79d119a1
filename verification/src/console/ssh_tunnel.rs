//! The SSH tunnel that forwards a local port to the display port of a
//! remote host.
use vstd::prelude::*;
use crate::text::{owned, push_str, push_u64, decimal};

verus! {

/// The host argument of `ssh`: `user@host`, or the host alone.
pub open spec fn host_arg_spec(username: Option<Seq<char>>, hostname: Seq<char>) -> Seq<char> {
    match username {
        Some(u) => u + "@"@ + hostname,
        None => hostname,
    }
}

/// The arguments of `ssh` for a tunnel from `local_port` to `remote_port`
/// on the remote side's `localhost`.
pub open spec fn tunnel_args_spec(username: Option<Seq<char>>, hostname: Seq<char>, local_port: u16, remote_port: u16) -> Seq<Seq<char>> {
    seq![
        "-N"@,
        "-o"@, "StrictHostKeyChecking=accept-new"@,
        "-o"@, "ExitOnForwardFailure=yes"@,
        "-o"@, "ConnectTimeout=10"@,
        "-L"@, decimal(local_port as nat) + ":localhost:"@ + decimal(remote_port as nat),
        host_arg_spec(username, hostname),
    ]
}

/// The texts of a list of strings.
pub open spec fn args_view(v: Seq<String>) -> Seq<Seq<char>> {
    v.map_values(|s: String| s@)
}

/// The host argument of `ssh`.
pub fn host_arg(username: Option<&str>, hostname: &str) -> (r: String)
    ensures
        r@ == host_arg_spec(
            match username {
                Some(u) => Some(u@),
                None => None,
            },
            hostname@,
        ),
{
    match username {
        Some(u) => {
            let mut r = owned(u);
            push_str(&mut r, "@");
            push_str(&mut r, hostname);
            r
        },
        None => owned(hostname),
    }
}

/// The arguments of the `ssh` command that holds the tunnel open.
pub fn tunnel_args(username: Option<&str>, hostname: &str, local_port: u16, remote_port: u16) -> (r: Vec<String>)
    ensures
        args_view(r@) == tunnel_args_spec(
            match username {
                Some(u) => Some(u@),
                None => None,
            },
            hostname@,
            local_port,
            remote_port,
        ),
{
    let mut forward = String::new();
    push_u64(&mut forward, local_port as u64);
    push_str(&mut forward, ":localhost:");
    push_u64(&mut forward, remote_port as u64);
    let r = vec![
        owned("-N"),
        owned("-o"),
        owned("StrictHostKeyChecking=accept-new"),
        owned("-o"),
        owned("ExitOnForwardFailure=yes"),
        owned("-o"),
        owned("ConnectTimeout=10"),
        owned("-L"),
        forward,
        host_arg(username, hostname),
    ];
    proof {
        let u = match username {
            Some(u) => Some(u@),
            None => None,
        };
        assert(args_view(r@) =~= tunnel_args_spec(u, hostname@, local_port, remote_port));
    }
    r
}

} // verus!
