//! Kill-switch rule synthesis.
//!
//! The policy allows loopback, established and related connections, the
//! tunnel interfaces, DNS, and the tunnel engine's own remote endpoints, and
//! drops everything else at the output hook.  All rules live in one dedicated
//! table so that removing them never touches anything else.
//!
//! A remote whose host is an address literal is allowed at that address.  A
//! remote whose host is a name is allowed at each address the name resolved
//! to; when it resolved to none, the remote's port and transport are allowed
//! to any destination (or, once the tunnel engine has reported the address it
//! uses, to that address alone).  This fallback applies to every such remote
//! alike.

use crate::text::{
    chars_of, contains_str, decimal, has_infix, push_all, push_decimal, push_signed, push_str,
    signed_decimal, string_of,
};
use vstd::prelude::*;

verus! {

/// The transport a rule allows.
#[derive(Clone, Copy, Debug, PartialEq, Eq, Structural)]
pub enum Transport {
    Udp,
    Tcp,
}

/// An address as the firewall engine writes it, and its family.
#[derive(Clone, Debug)]
pub struct Addr {
    pub v6: bool,
    pub text: String,
}

/// What is known of a remote's host: it is an address literal, or a name
/// that resolved to the listed addresses (possibly none).
#[derive(Clone, Debug)]
pub enum HostLookup {
    Literal(Addr),
    Resolved(Vec<Addr>),
}

/// A remote endpoint (host, port, transport) with what is known of its host.
#[derive(Clone, Debug)]
pub struct ResolvedRemote {
    pub host: String,
    pub port: u16,
    pub proto: String,
    pub lookup: HostLookup,
}

/// An address as plain values: family (true for IPv6) and text.
pub open spec fn addr_view(a: Addr) -> (bool, Seq<char>) {
    (a.v6, a.text@)
}

/// An optional address as plain values.
pub open spec fn opt_addr_view(a: Option<Addr>) -> Option<(bool, Seq<char>)> {
    match a {
        Some(x) => Some(addr_view(x)),
        None => None,
    }
}

/// A host lookup as plain values.
pub enum LookupView {
    Literal((bool, Seq<char>)),
    Resolved(Seq<(bool, Seq<char>)>),
}

pub open spec fn lookup_view(l: HostLookup) -> LookupView {
    match l {
        HostLookup::Literal(a) => LookupView::Literal(addr_view(a)),
        HostLookup::Resolved(v) => LookupView::Resolved(v@.map_values(|a: Addr| addr_view(a))),
    }
}

/// A resolved remote as plain values.
pub open spec fn resolved_view(r: ResolvedRemote) -> ((Seq<char>, u16, Seq<char>), LookupView) {
    ((r.host@, r.port, r.proto@), lookup_view(r.lookup))
}

/// One rule of the kill-switch chain.
pub enum Rule {
    Loopback,
    Established,
    TunnelInterfaces,
    Dns(Transport),
    ToAddress(bool, Seq<char>, Transport, u16),
    ToPort(Transport, u16),
    DropAll,
}

/// The transport that a transport name selects: TCP for any name that
/// mentions `tcp`, UDP otherwise.
pub open spec fn transport_of(proto: Seq<char>) -> Transport {
    if has_infix(proto, "tcp"@) {
        Transport::Tcp
    } else {
        Transport::Udp
    }
}

/// The rules that allow a set of addresses on one port and transport.
pub open spec fn address_rules(addrs: Seq<(bool, Seq<char>)>, t: Transport, port: u16) -> Seq<Rule> {
    addrs.map_values(|a: (bool, Seq<char>)| Rule::ToAddress(a.0, a.1, t, port))
}

/// The rules that allow one remote.
pub open spec fn remote_rules(
    r: ((Seq<char>, u16, Seq<char>), LookupView),
    learned: Option<(bool, Seq<char>)>,
) -> Seq<Rule> {
    let port = r.0.1;
    let t = transport_of(r.0.2);
    match r.1 {
        LookupView::Literal(a) => seq![Rule::ToAddress(a.0, a.1, t, port)],
        LookupView::Resolved(addrs) => if addrs.len() > 0 {
            address_rules(addrs, t, port)
        } else {
            match learned {
                Some(a) => seq![Rule::ToAddress(a.0, a.1, t, port)],
                None => seq![Rule::ToPort(t, port)],
            }
        },
    }
}

/// The rules that allow all remotes, in order.
pub open spec fn remotes_rules(
    rs: Seq<((Seq<char>, u16, Seq<char>), LookupView)>,
    learned: Option<(bool, Seq<char>)>,
) -> Seq<Rule>
    decreases rs.len(),
{
    if rs.len() == 0 {
        Seq::empty()
    } else {
        remotes_rules(rs.drop_last(), learned) + remote_rules(rs.last(), learned)
    }
}

/// The rules that hold whatever the remotes are.
pub open spec fn base_rules() -> Seq<Rule> {
    seq![
        Rule::Loopback,
        Rule::Established,
        Rule::TunnelInterfaces,
        Rule::Dns(Transport::Udp),
        Rule::Dns(Transport::Tcp),
    ]
}

/// The kill-switch policy: the chain's rules, or `None` when no remote is
/// given (a policy that lets nothing reach a tunnel endpoint is refused).
pub open spec fn policy(
    rs: Seq<((Seq<char>, u16, Seq<char>), LookupView)>,
    learned: Option<(bool, Seq<char>)>,
) -> Option<Seq<Rule>> {
    if rs.len() == 0 {
        None
    } else {
        Some(base_rules() + remotes_rules(rs, learned) + seq![Rule::DropAll])
    }
}

/// A statement of a firewall script.
pub enum Stmt {
    AddTable,
    AddChain,
    FlushChain,
    AddRule(Rule),
    DeleteTable,
}

pub open spec fn transport_text(t: Transport) -> Seq<char> {
    match t {
        Transport::Udp => "udp"@,
        Transport::Tcp => "tcp"@,
    }
}

/// The text of a rule, after the common `add rule` prefix.
pub open spec fn rule_body(r: Rule) -> Seq<char> {
    match r {
        Rule::Loopback => "oifname \"lo\" accept\n"@,
        Rule::Established => "ct state established,related accept\n"@,
        Rule::TunnelInterfaces => TUNNEL_RULE@,
        Rule::Dns(t) => transport_text(t) + " dport 53 accept\n"@,
        Rule::ToAddress(v6, a, t, port) => (if v6 {
            "ip6 daddr "@
        } else {
            "ip daddr "@
        }) + a + " "@ + transport_text(t) + " dport "@ + decimal(port as nat) + " accept\n"@,
        Rule::ToPort(t, port) => transport_text(t) + " dport "@ + decimal(port as nat)
            + " accept\n"@,
        Rule::DropAll => "drop\n"@,
    }
}

/// The text of a statement, ending in a newline.
pub open spec fn stmt_text(s: Stmt) -> Seq<char> {
    match s {
        Stmt::AddTable => ADD_TABLE@,
        Stmt::AddChain => ADD_CHAIN@,
        Stmt::FlushChain => FLUSH_CHAIN@,
        Stmt::AddRule(r) => RULE_PREFIX@ + rule_body(r),
        Stmt::DeleteTable => DELETE_TABLE@,
    }
}

/// The text of a script.
pub open spec fn script_text(ss: Seq<Stmt>) -> Seq<char>
    decreases ss.len(),
{
    if ss.len() == 0 {
        Seq::empty()
    } else {
        script_text(ss.drop_last()) + stmt_text(ss.last())
    }
}

/// The script that installs a chain holding exactly `rules`: it creates the
/// table and chain where missing and empties the chain before adding rules.
pub open spec fn install_stmts(rules: Seq<Rule>) -> Seq<Stmt> {
    seq![Stmt::AddTable, Stmt::AddChain, Stmt::FlushChain] + rules.map_values(
        |r: Rule| Stmt::AddRule(r),
    )
}

pub const ADD_TABLE: &'static str = "add table inet stellarkillswitch\n";

pub const ADD_CHAIN: &'static str = "add chain inet stellarkillswitch output { type filter hook output priority 0; policy accept; }\n";

pub const FLUSH_CHAIN: &'static str = "flush chain inet stellarkillswitch output\n";

pub const DELETE_TABLE: &'static str = "delete table inet stellarkillswitch\n";

pub const RULE_PREFIX: &'static str = "add rule inet stellarkillswitch output ";

pub const TUNNEL_RULE: &'static str = "oifname { \"tun\", \"tun0\", \"tun1\", \"tun2\", \"tun3\", \"tun4\", \"tun5\", \"tun6\", \"tun7\", \"tun8\", \"tun9\", \"tap0\", \"tap1\", \"tap2\", \"tap3\", \"tap4\", \"tap5\", \"tap6\", \"tap7\", \"tap8\", \"tap9\" } accept\n";

fn push_transport(out: &mut Vec<char>, t: Transport)
    ensures
        final(out)@ == old(out)@ + transport_text(t),
{
    match t {
        Transport::Udp => push_str(out, "udp"),
        Transport::Tcp => push_str(out, "tcp"),
    }
}

fn push_rule(out: &mut Vec<char>, r: &ExecRule)
    ensures
        final(out)@ == old(out)@ + stmt_text(Stmt::AddRule(exec_rule_view(*r))),
{
    push_str(out, RULE_PREFIX);
    match r {
        ExecRule::Loopback => push_str(out, "oifname \"lo\" accept\n"),
        ExecRule::Established => push_str(out, "ct state established,related accept\n"),
        ExecRule::TunnelInterfaces => push_str(out, TUNNEL_RULE),
        ExecRule::DropAll => push_str(out, "drop\n"),
        ExecRule::Dns(t) => {
            push_transport(out, *t);
            push_str(out, " dport 53 accept\n");
        },
        ExecRule::ToAddress(v6, a, t, port) => {
            if *v6 {
                push_str(out, "ip6 daddr ");
            } else {
                push_str(out, "ip daddr ");
            }
            push_all(out, a);
            push_str(out, " ");
            push_transport(out, *t);
            push_str(out, " dport ");
            push_decimal(out, *port as u64);
            push_str(out, " accept\n");
        },
        ExecRule::ToPort(t, port) => {
            push_transport(out, *t);
            push_str(out, " dport ");
            push_decimal(out, *port as u64);
            push_str(out, " accept\n");
        },
    }
    assert(out@ =~= old(out)@ + stmt_text(Stmt::AddRule(exec_rule_view(*r))));
}

/// A rule as the script builder holds it.
enum ExecRule {
    Loopback,
    Established,
    TunnelInterfaces,
    DropAll,
    Dns(Transport),
    ToAddress(bool, Vec<char>, Transport, u16),
    ToPort(Transport, u16),
}

spec fn exec_rule_view(r: ExecRule) -> Rule {
    match r {
        ExecRule::Loopback => Rule::Loopback,
        ExecRule::Established => Rule::Established,
        ExecRule::TunnelInterfaces => Rule::TunnelInterfaces,
        ExecRule::DropAll => Rule::DropAll,
        ExecRule::Dns(t) => Rule::Dns(t),
        ExecRule::ToAddress(v6, a, t, port) => Rule::ToAddress(v6, a@, t, port),
        ExecRule::ToPort(t, port) => Rule::ToPort(t, port),
    }
}

proof fn lemma_script_push(ss: Seq<Stmt>, x: Stmt)
    ensures
        script_text(ss.push(x)) == script_text(ss) + stmt_text(x),
{
    assert(ss.push(x).drop_last() =~= ss);
}

proof fn lemma_install_push(rules: Seq<Rule>, r: Rule)
    ensures
        install_stmts(rules.push(r)) == install_stmts(rules).push(Stmt::AddRule(r)),
{
    assert(install_stmts(rules.push(r)) =~= install_stmts(rules).push(Stmt::AddRule(r)));
}

/// Appends one rule to a script under construction.
fn add_rule(out: &mut Vec<char>, r: ExecRule, Ghost(rules): Ghost<Seq<Rule>>) -> (new_rules: Ghost<Seq<Rule>>)
    requires
        old(out)@ == script_text(install_stmts(rules)),
    ensures
        new_rules@ == rules.push(exec_rule_view(r)),
        final(out)@ == script_text(install_stmts(new_rules@)),
{
    push_rule(out, &r);
    proof {
        lemma_install_push(rules, exec_rule_view(r));
        lemma_script_push(install_stmts(rules), Stmt::AddRule(exec_rule_view(r)));
    }
    Ghost(rules.push(exec_rule_view(r)))
}

/// The text of a kill-switch script for the given remotes, or an error when
/// there is no remote to allow.  `learned` is the address the tunnel engine
/// has reported using, when it has.
pub fn build_script(remotes: Vec<ResolvedRemote>, learned: Option<Addr>) -> (r: Result<String, String>)
    ensures
        match policy(remotes@.map_values(|x: ResolvedRemote| resolved_view(x)), opt_addr_view(learned)) {
            Some(rules) => r is Ok && r->Ok_0@ == script_text(install_stmts(rules)),
            None => r is Err && r->Err_0@ == "No VPN remotes could be allowed. Invalid config?"@,
        },
{
    let ghost rv = remotes@.map_values(|x: ResolvedRemote| resolved_view(x));
    let ghost lv = opt_addr_view(learned);
    if remotes.len() == 0 {
        return Err(String::from_str("No VPN remotes could be allowed. Invalid config?"));
    }
    let mut out: Vec<char> = Vec::new();
    push_str(&mut out, ADD_TABLE);
    push_str(&mut out, ADD_CHAIN);
    push_str(&mut out, FLUSH_CHAIN);
    proof {
        let e: Seq<Rule> = Seq::empty();
        let s0: Seq<Stmt> = Seq::empty();
        assert(install_stmts(e) =~= s0.push(Stmt::AddTable).push(Stmt::AddChain).push(
            Stmt::FlushChain,
        ));
        lemma_script_push(s0, Stmt::AddTable);
        lemma_script_push(s0.push(Stmt::AddTable), Stmt::AddChain);
        lemma_script_push(s0.push(Stmt::AddTable).push(Stmt::AddChain), Stmt::FlushChain);
        assert(out@ =~= script_text(install_stmts(e)));
    }
    let ghost mut rules: Seq<Rule> = Seq::empty();
    let Ghost(g) = add_rule(&mut out, ExecRule::Loopback, Ghost(rules));
    proof { rules = g; }
    let Ghost(g) = add_rule(&mut out, ExecRule::Established, Ghost(rules));
    proof { rules = g; }
    let Ghost(g) = add_rule(&mut out, ExecRule::TunnelInterfaces, Ghost(rules));
    proof { rules = g; }
    let Ghost(g) = add_rule(&mut out, ExecRule::Dns(Transport::Udp), Ghost(rules));
    proof { rules = g; }
    let Ghost(g) = add_rule(&mut out, ExecRule::Dns(Transport::Tcp), Ghost(rules));
    proof { rules = g; }
    assert(rules =~= base_rules());
    let mut i: usize = 0;
    while i < remotes.len()
        invariant
            i <= remotes.len(),
            rv == remotes@.map_values(|x: ResolvedRemote| resolved_view(x)),
            lv == opt_addr_view(learned),
            rules == base_rules() + remotes_rules(rv.take(i as int), lv),
            out@ == script_text(install_stmts(rules)),
        decreases remotes.len() - i,
    {
        let rem = &remotes[i];
        let port = rem.port;
        let pv = chars_of(rem.proto.as_str());
        let t = if contains_str(&pv, "tcp") {
            Transport::Tcp
        } else {
            Transport::Udp
        };
        assert(rv.take(i + 1).drop_last() =~= rv.take(i as int));
        assert(rv.take(i + 1).last() == resolved_view(*rem));
        let ghost before = rules;
        match &rem.lookup {
            HostLookup::Literal(a) => {
                let av = chars_of(a.text.as_str());
                let Ghost(g) = add_rule(&mut out, ExecRule::ToAddress(a.v6, av, t, port), Ghost(rules));
                proof { rules = g; }
            },
            HostLookup::Resolved(addrs) => {
                if addrs.len() > 0 {
                    let ghost av = addrs@.map_values(|a: Addr| addr_view(a));
                    let mut k: usize = 0;
                    while k < addrs.len()
                        invariant
                            k <= addrs.len(),
                            av == addrs@.map_values(|a: Addr| addr_view(a)),
                            rules == before + address_rules(av.take(k as int), t, port),
                            out@ == script_text(install_stmts(rules)),
                        decreases addrs.len() - k,
                    {
                        let a = &addrs[k];
                        let at = chars_of(a.text.as_str());
                        let Ghost(g) = add_rule(&mut out, ExecRule::ToAddress(a.v6, at, t, port), Ghost(rules));
                        proof {
                            rules = g;
                            assert(address_rules(av.take(k + 1), t, port) =~= address_rules(av.take(k as int), t, port).push(
                                Rule::ToAddress(a.v6, a.text@, t, port),
                            ));
                            assert(rules =~= before + address_rules(av.take(k + 1), t, port));
                        }
                        k = k + 1;
                    }
                    assert(av.take(addrs.len() as int) =~= av);
                } else {
                    match &learned {
                        Some(a) => {
                            let at = chars_of(a.text.as_str());
                            let Ghost(g) = add_rule(&mut out, ExecRule::ToAddress(a.v6, at, t, port), Ghost(rules));
                            proof { rules = g; }
                        },
                        None => {
                            let Ghost(g) = add_rule(&mut out, ExecRule::ToPort(t, port), Ghost(rules));
                            proof { rules = g; }
                        },
                    }
                }
            },
        }
        proof {
            assert(rules =~= before + remote_rules(resolved_view(*rem), lv));
            assert(rules =~= base_rules() + remotes_rules(rv.take(i + 1), lv));
        }
        i = i + 1;
    }
    let Ghost(g) = add_rule(&mut out, ExecRule::DropAll, Ghost(rules));
    proof {
        rules = g;
        assert(rv.take(remotes.len() as int) =~= rv);
        assert(rules =~= base_rules() + remotes_rules(rv, lv) + seq![Rule::DropAll]);
    }
    Ok(string_of(&out))
}


/// The address family of the dedicated table, as the firewall engine names it.
pub const TABLE_FAMILY: &'static str = "inet";

/// The name of the dedicated table.
pub const TABLE_NAME: &'static str = "stellarkillswitch";

/// The dedicated table as the firewall engine holds it: absent, present
/// without the output chain, or present with the chain and its rules.
pub enum TableState {
    Absent,
    NoChain,
    Chain(Seq<Rule>),
}

/// One statement run against the table; `None` when the engine refuses it.
pub open spec fn step(t: TableState, s: Stmt) -> Option<TableState> {
    match s {
        Stmt::AddTable => Some(
            match t {
                TableState::Absent => TableState::NoChain,
                _ => t,
            },
        ),
        Stmt::AddChain => match t {
            TableState::Absent => None,
            TableState::NoChain => Some(TableState::Chain(Seq::empty())),
            TableState::Chain(_) => Some(t),
        },
        Stmt::FlushChain => match t {
            TableState::Chain(_) => Some(TableState::Chain(Seq::empty())),
            _ => None,
        },
        Stmt::AddRule(r) => match t {
            TableState::Chain(rs) => Some(TableState::Chain(rs.push(r))),
            _ => None,
        },
        Stmt::DeleteTable => match t {
            TableState::Absent => None,
            _ => Some(TableState::Absent),
        },
    }
}

/// Running statements in order; `None` when one of them is refused.
pub open spec fn run(t: TableState, ss: Seq<Stmt>) -> Option<TableState>
    decreases ss.len(),
{
    if ss.len() == 0 {
        Some(t)
    } else {
        match run(t, ss.drop_last()) {
            Some(u) => step(u, ss.last()),
            None => None,
        }
    }
}

/// A script is applied as one transaction: all of it, or none of it.
pub open spec fn apply(t: TableState, ss: Seq<Stmt>) -> TableState {
    match run(t, ss) {
        Some(u) => u,
        None => t,
    }
}

/// Strict removal of the table: a table that does not exist counts as removed.
pub open spec fn remove(t: TableState) -> TableState {
    TableState::Absent
}

/// Arming the kill switch with `rules`: the old table goes first, then the
/// installing script runs.
pub open spec fn enable(t: TableState, rules: Seq<Rule>) -> TableState {
    apply(remove(t), install_stmts(rules))
}

/// Disarming the kill switch.
pub open spec fn disable(t: TableState) -> TableState {
    remove(t)
}

/// A kill-switch request.
pub enum SwitchOp {
    Enable(Seq<Rule>),
    Disable,
}

/// The table after a series of requests.
pub open spec fn run_ops(t: TableState, ops: Seq<SwitchOp>) -> TableState
    decreases ops.len(),
{
    if ops.len() == 0 {
        t
    } else {
        let u = run_ops(t, ops.drop_last());
        match ops.last() {
            SwitchOp::Enable(rules) => enable(u, rules),
            SwitchOp::Disable => disable(u),
        }
    }
}

proof fn lemma_run_push(t: TableState, ss: Seq<Stmt>, x: Stmt)
    ensures
        run(t, ss.push(x)) == (match run(t, ss) {
            Some(u) => step(u, x),
            None => None,
        }),
{
    assert(ss.push(x).drop_last() =~= ss);
}

/// The installing script succeeds from any state of the table and leaves
/// the chain holding exactly `rules`.
pub proof fn lemma_install_result(t: TableState, rules: Seq<Rule>)
    ensures
        run(t, install_stmts(rules)) == Some(TableState::Chain(rules)),
    decreases rules.len(),
{
    if rules.len() == 0 {
        let s0: Seq<Stmt> = Seq::empty();
        assert(install_stmts(rules) =~= s0.push(Stmt::AddTable).push(Stmt::AddChain).push(
            Stmt::FlushChain,
        ));
        lemma_run_push(t, s0, Stmt::AddTable);
        lemma_run_push(t, s0.push(Stmt::AddTable), Stmt::AddChain);
        lemma_run_push(t, s0.push(Stmt::AddTable).push(Stmt::AddChain), Stmt::FlushChain);
        assert(rules =~= Seq::<Rule>::empty());
    } else {
        let init = rules.drop_last();
        lemma_install_result(t, init);
        lemma_install_push(init, rules.last());
        assert(init.push(rules.last()) =~= rules);
        lemma_run_push(t, install_stmts(init), Stmt::AddRule(rules.last()));
    }
}

/// Re-applying the kill-switch policy with the same rules leaves the
/// firewall as applying it once did: the table holds exactly those rules.
/// This holds of the installing script alone too, since it empties the
/// chain before adding to it.
pub proof fn lemma_reapply_idempotent(t: TableState, rules: Seq<Rule>)
    ensures
        enable(enable(t, rules), rules) == enable(t, rules),
        enable(t, rules) == TableState::Chain(rules),
        apply(apply(t, install_stmts(rules)), install_stmts(rules)) == apply(
            t,
            install_stmts(rules),
        ),
{
    lemma_install_result(t, rules);
    lemma_install_result(TableState::Absent, rules);
    lemma_install_result(TableState::Chain(rules), rules);
}

/// Whatever enable and disable requests came before, a disable request
/// leaves the dedicated table absent.
pub proof fn lemma_disable_removes_table(t: TableState, ops: Seq<SwitchOp>)
    requires
        ops.len() > 0,
        ops.last() is Disable,
    ensures
        run_ops(t, ops) == TableState::Absent,
{
}

/// The error text of a failed removal.
pub open spec fn delete_error(code: Option<i32>, stderr: Seq<char>) -> Seq<char> {
    "Failed to delete kill switch table (exit="@ + signed_decimal(
        match code {
            Some(c) => c as int,
            None => -1,
        },
    ) + "):\n"@ + stderr
}

/// Whether the engine's error output says that the table was not there.
pub open spec fn reports_missing(stderr: Seq<char>) -> bool {
    has_infix(stderr, "No such file"@) || has_infix(stderr, "does not exist"@)
}

/// The outcome of removing the table, from the engine's exit status, exit
/// code and error output: a table that was not there counts as removed.
pub fn delete_outcome(success: bool, code: Option<i32>, stderr: &str) -> (r: Result<(), String>)
    ensures
        r is Ok <==> (success || reports_missing(stderr@)),
        r is Err ==> r->Err_0@ == delete_error(code, stderr@),
{
    if success {
        return Ok(());
    }
    let e = chars_of(stderr);
    if contains_str(&e, "No such file") || contains_str(&e, "does not exist") {
        return Ok(());
    }
    let mut out: Vec<char> = Vec::new();
    push_str(&mut out, "Failed to delete kill switch table (exit=");
    let c: i64 = match code {
        Some(c) => c as i64,
        None => -1,
    };
    push_signed(&mut out, c);
    push_str(&mut out, "):\n");
    push_all(&mut out, &e);
    assert(out@ =~= delete_error(code, stderr@));
    Err(string_of(&out))
}

/// The error text of a script that the engine refused.
pub open spec fn script_error(code: Option<i32>, stderr: Seq<char>) -> Seq<char> {
    "nft failed (exit="@ + signed_decimal(
        match code {
            Some(c) => c as int,
            None => -1,
        },
    ) + "):\n"@ + stderr
}

/// The outcome of running a script, from the engine's exit status, exit code
/// and error output.
pub fn script_outcome(success: bool, code: Option<i32>, stderr: &str) -> (r: Result<(), String>)
    ensures
        r is Ok <==> success,
        r is Err ==> r->Err_0@ == script_error(code, stderr@),
{
    if success {
        return Ok(());
    }
    let e = chars_of(stderr);
    let mut out: Vec<char> = Vec::new();
    push_str(&mut out, "nft failed (exit=");
    let c: i64 = match code {
        Some(c) => c as i64,
        None => -1,
    };
    push_signed(&mut out, c);
    push_str(&mut out, "):\n");
    push_all(&mut out, &e);
    assert(out@ =~= script_error(code, stderr@));
    Err(string_of(&out))
}

/// Whether a removal is confirmed, from a listing of the table made after it:
/// only a listing that fails because the table is not there confirms it.
pub fn removal_confirmed(listed: bool, stderr: &str) -> (r: Result<(), String>)
    ensures
        r is Ok <==> (!listed && reports_missing(stderr@)),
        r is Err ==> r->Err_0@ == (if listed {
            "kill switch table is still present after removal"@
        } else {
            "could not confirm that the kill switch table is gone"@
        }),
{
    if listed {
        return Err(String::from_str("kill switch table is still present after removal"));
    }
    let e = chars_of(stderr);
    if contains_str(&e, "No such file") || contains_str(&e, "does not exist") {
        Ok(())
    } else {
        Err(String::from_str("could not confirm that the kill switch table is gone"))
    }
}

/// The script for the endpoints named in a configuration: an error when the
/// configuration names none, else the script of the kill-switch policy.
pub fn enable_script(remotes: Vec<ResolvedRemote>, learned: Option<Addr>) -> (r: Result<String, String>)
    ensures
        remotes.len() == 0 ==> r is Err && r->Err_0@ == "No 'remote' entries found in config"@,
        remotes.len() > 0 ==> (match policy(remotes@.map_values(|x: ResolvedRemote| resolved_view(x)), opt_addr_view(learned)) {
            Some(rules) => r is Ok && r->Ok_0@ == script_text(install_stmts(rules)),
            None => false,
        }),
{
    if remotes.len() == 0 {
        return Err(String::from_str("No 'remote' entries found in config"));
    }
    build_script(remotes, learned)
}

} // verus!
