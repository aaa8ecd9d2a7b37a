//! The status evaluator and reporter: derives per-severity message buckets
//! from expectations and observed facts, picks the reported severity by
//! precedence, and renders the output line and exit code.

use vstd::prelude::*;
use crate::config::{Configuration, ConfigView, Duplex, AddressCheck};
use crate::facts::{InterfaceState, FactsView, Address};
use crate::text::{spec_dec_int, i32_dec_string, spec_join, join_messages, str_eq};

verus! {

pub const STATE_OK: i32 = 0;

pub const STATE_WARNING: i32 = 1;

pub const STATE_CRITICAL: i32 = 2;

pub const STATE_UNKNOWN: i32 = 3;

/// The severity of a single finding.
#[derive(Clone, Copy, PartialEq, Eq, Structural, Debug)]
pub enum Severity {
    Okay,
    Warning,
    Critical,
    Unknown,
}

pub open spec fn msg_not_present() -> Seq<char> {
    "Interface is not present"@
}

pub open spec fn msg_down() -> Seq<char> {
    "Interface is DOWN"@
}

pub open spec fn msg_up() -> Seq<char> {
    "Interface is up"@
}

pub open spec fn msg_state(st: Seq<char>) -> Seq<char> {
    "Interface is "@ + st
}

pub open spec fn msg_speed_above(got: int, want: int) -> Seq<char> {
    "Negotiated interface speed ("@ + spec_dec_int(got)
        + " MBit/s) is greater than requested interface speed ("@ + spec_dec_int(want)
        + " MBit/s)"@
}

pub open spec fn msg_speed_below(got: int, want: int) -> Seq<char> {
    "Negotiated interface speed ("@ + spec_dec_int(got)
        + " MBit/s) is below requested interface speed ("@ + spec_dec_int(want) + " MBit/s)"@
}

pub open spec fn msg_speed_ok(got: int) -> Seq<char> {
    "Negotiated interface speed is "@ + spec_dec_int(got) + " MBit/s"@
}

pub open spec fn msg_duplex_unknown(dx: Seq<char>) -> Seq<char> {
    "Unknown duplex mode "@ + dx
}

pub open spec fn msg_duplex_mismatch(got: Seq<char>, want: Seq<char>) -> Seq<char> {
    "Negotiated duplex mode is "@ + got + " instead of "@ + want
}

pub open spec fn msg_duplex_ok(dx: Seq<char>) -> Seq<char> {
    "Negotiated duplex mode is "@ + dx
}

pub open spec fn msg_mtu_mismatch(got: int, want: int) -> Seq<char> {
    "MTU size of "@ + spec_dec_int(got) + " does not match requested MTU size of "@
        + spec_dec_int(want)
}

pub open spec fn msg_mtu_ok(got: int) -> Seq<char> {
    "MTU size is "@ + spec_dec_int(got)
}

pub open spec fn msg_no_addr() -> Seq<char> {
    "No IP address assigned"@
}

pub open spec fn msg_only_link_local() -> Seq<char> {
    "Only link local address(es) are assigned"@
}

pub open spec fn msg_addr_ok() -> Seq<char> {
    "Non link local address(es) assigned"@
}

/// The characters of an expected duplex mode.
pub open spec fn spec_duplex_seq(d: Duplex) -> Seq<char> {
    match d {
        Duplex::Half => "half"@,
        Duplex::Full => "full"@,
    }
}

/// The severity a mismatch is reported with.
pub open spec fn spec_mismatch_severity(escalate: bool) -> Severity {
    if escalate {
        Severity::Critical
    } else {
        Severity::Warning
    }
}

/// The finding of the speed check: absent when the check is disabled;
/// a negotiated speed above the expectation is noteworthy but never
/// escalated, one below it is a mismatch, an equal one is in order.
pub open spec fn spec_speed_finding(cfg: ConfigView, f: FactsView) -> Option<(Severity, Seq<char>)> {
    match cfg.expected_speed {
        None => None,
        Some(want) => Some(
            if f.speed > want {
                (Severity::Warning, msg_speed_above(f.speed, want))
            } else if f.speed < want {
                (spec_mismatch_severity(cfg.escalate_to_critical), msg_speed_below(f.speed, want))
            } else {
                (Severity::Okay, msg_speed_ok(f.speed))
            },
        ),
    }
}

/// The finding of the duplex check, which runs exactly when the speed
/// check does: a mode that is neither `half` nor `full` is unknown, one
/// that differs from the expectation is a mismatch.
pub open spec fn spec_duplex_finding(cfg: ConfigView, f: FactsView) -> Option<
    (Severity, Seq<char>),
> {
    match cfg.expected_speed {
        None => None,
        Some(_) => Some(
            if f.duplex != "half"@ && f.duplex != "full"@ {
                (Severity::Unknown, msg_duplex_unknown(f.duplex))
            } else if f.duplex != spec_duplex_seq(cfg.expected_duplex) {
                (
                    spec_mismatch_severity(cfg.escalate_to_critical),
                    msg_duplex_mismatch(f.duplex, spec_duplex_seq(cfg.expected_duplex)),
                )
            } else {
                (Severity::Okay, msg_duplex_ok(f.duplex))
            },
        ),
    }
}

/// The finding of the MTU check: absent when the check is disabled.
pub open spec fn spec_mtu_finding(cfg: ConfigView, f: FactsView) -> Option<(Severity, Seq<char>)> {
    match cfg.expected_mtu {
        None => None,
        Some(want) => Some(
            if f.mtu != want {
                (spec_mismatch_severity(cfg.escalate_to_critical), msg_mtu_mismatch(f.mtu, want))
            } else {
                (Severity::Okay, msg_mtu_ok(f.mtu))
            },
        ),
    }
}

/// Whether the address-presence check considers an address at all.
pub open spec fn spec_in_scope(ac: AddressCheck, a: Address) -> bool {
    match ac {
        AddressCheck::Disabled => false,
        AddressCheck::Ipv4 => a is V4,
        AddressCheck::Ipv6 => a is V6,
        AddressCheck::Both => true,
    }
}

/// How many in-scope addresses are link-local (`want_ll` true) or not.
pub open spec fn spec_count_scoped(ac: AddressCheck, ips: Seq<Address>, want_ll: bool) -> nat
    decreases ips.len(),
{
    if ips.len() == 0 {
        0
    } else {
        spec_count_scoped(ac, ips.drop_last(), want_ll) + (if spec_in_scope(ac, ips.last())
            && ips.last().spec_is_link_local() == want_ll {
            1nat
        } else {
            0nat
        })
    }
}

/// The finding of the address-presence check: absent when disabled;
/// no address in scope is critical, only link-local addresses in scope is
/// critical, at least one other address is in order.
pub open spec fn spec_addr_finding(cfg: ConfigView, f: FactsView) -> Option<(Severity, Seq<char>)> {
    if cfg.address_check == AddressCheck::Disabled {
        None
    } else {
        let ll = spec_count_scoped(cfg.address_check, f.ips, true);
        let nll = spec_count_scoped(cfg.address_check, f.ips, false);
        Some(
            if nll == 0 && ll == 0 {
                (Severity::Critical, msg_no_addr())
            } else if nll == 0 {
                (Severity::Critical, msg_only_link_local())
            } else {
                (Severity::Okay, msg_addr_ok())
            },
        )
    }
}

/// The four severity buckets of an evaluation, each in emission order.
#[verifier::ext_equal]
pub struct Buckets {
    pub critical: Seq<Seq<char>>,
    pub warning: Seq<Seq<char>>,
    pub ok: Seq<Seq<char>>,
    pub unknown: Seq<Seq<char>>,
}

/// The messages a finding contributes to one severity bucket.
pub open spec fn spec_pick(fd: Option<(Severity, Seq<char>)>, sev: Severity) -> Seq<Seq<char>> {
    match fd {
        Some(p) => if p.0 == sev {
            seq![p.1]
        } else {
            Seq::empty()
        },
        None => Seq::empty(),
    }
}

/// The messages the four non-short-circuiting checks contribute to one
/// severity bucket, in evaluation order.
pub open spec fn spec_checks_bucket(cfg: ConfigView, f: FactsView, sev: Severity) -> Seq<Seq<char>> {
    spec_pick(spec_speed_finding(cfg, f), sev) + spec_pick(spec_duplex_finding(cfg, f), sev)
        + spec_pick(spec_mtu_finding(cfg, f), sev) + spec_pick(spec_addr_finding(cfg, f), sev)
}

/// The whole evaluation: an absent interface or one that is down yields a
/// single critical message and nothing else runs; an operational state
/// other than `up` yields a single unknown message and nothing else runs;
/// otherwise every enabled check contributes its finding.
pub open spec fn spec_status(cfg: ConfigView, f: FactsView) -> Buckets {
    if !f.present {
        Buckets {
            critical: seq![msg_not_present()],
            warning: Seq::empty(),
            ok: Seq::empty(),
            unknown: Seq::empty(),
        }
    } else if f.operstate == "down"@ {
        Buckets {
            critical: seq![msg_down()],
            warning: Seq::empty(),
            ok: Seq::empty(),
            unknown: Seq::empty(),
        }
    } else if f.operstate != "up"@ {
        Buckets {
            critical: Seq::empty(),
            warning: Seq::empty(),
            ok: Seq::empty(),
            unknown: seq![msg_state(f.operstate)],
        }
    } else {
        Buckets {
            critical: spec_checks_bucket(cfg, f, Severity::Critical),
            warning: spec_checks_bucket(cfg, f, Severity::Warning),
            ok: seq![msg_up()] + spec_checks_bucket(cfg, f, Severity::Okay),
            unknown: spec_checks_bucket(cfg, f, Severity::Unknown),
        }
    }
}

fn duplex_str(d: Duplex) -> (r: &'static str)
    ensures
        r@ == spec_duplex_seq(d),
{
    match d {
        Duplex::Half => "half",
        Duplex::Full => "full",
    }
}

fn speed_above_string(got: i32, want: i32) -> (r: String)
    ensures
        r@ == msg_speed_above(got as int, want as int),
{
    let mut s = String::from_str("Negotiated interface speed (");
    let g = i32_dec_string(got);
    s.append(g.as_str());
    s.append(" MBit/s) is greater than requested interface speed (");
    let w = i32_dec_string(want);
    s.append(w.as_str());
    s.append(" MBit/s)");
    s
}

fn speed_below_string(got: i32, want: i32) -> (r: String)
    ensures
        r@ == msg_speed_below(got as int, want as int),
{
    let mut s = String::from_str("Negotiated interface speed (");
    let g = i32_dec_string(got);
    s.append(g.as_str());
    s.append(" MBit/s) is below requested interface speed (");
    let w = i32_dec_string(want);
    s.append(w.as_str());
    s.append(" MBit/s)");
    s
}

fn speed_ok_string(got: i32) -> (r: String)
    ensures
        r@ == msg_speed_ok(got as int),
{
    let mut s = String::from_str("Negotiated interface speed is ");
    let g = i32_dec_string(got);
    s.append(g.as_str());
    s.append(" MBit/s");
    s
}

fn duplex_unknown_string(dx: &String) -> (r: String)
    ensures
        r@ == msg_duplex_unknown(dx@),
{
    let mut s = String::from_str("Unknown duplex mode ");
    s.append(dx.as_str());
    s
}

fn duplex_mismatch_string(got: &String, want: &str) -> (r: String)
    ensures
        r@ == msg_duplex_mismatch(got@, want@),
{
    let mut s = String::from_str("Negotiated duplex mode is ");
    s.append(got.as_str());
    s.append(" instead of ");
    s.append(want);
    s
}

fn duplex_ok_string(dx: &String) -> (r: String)
    ensures
        r@ == msg_duplex_ok(dx@),
{
    let mut s = String::from_str("Negotiated duplex mode is ");
    s.append(dx.as_str());
    s
}

fn mtu_mismatch_string(got: i32, want: i32) -> (r: String)
    ensures
        r@ == msg_mtu_mismatch(got as int, want as int),
{
    let mut s = String::from_str("MTU size of ");
    let g = i32_dec_string(got);
    s.append(g.as_str());
    s.append(" does not match requested MTU size of ");
    let w = i32_dec_string(want);
    s.append(w.as_str());
    s
}

fn mtu_ok_string(got: i32) -> (r: String)
    ensures
        r@ == msg_mtu_ok(got as int),
{
    let mut s = String::from_str("MTU size is ");
    let g = i32_dec_string(got);
    s.append(g.as_str());
    s
}

fn speed_finding(cfg: &Configuration, ifs: &InterfaceState) -> (r: Option<(Severity, String)>)
    ensures
        (match (r, spec_speed_finding(cfg@, ifs@)) {
            (Some(p), Some(q)) => p.0 == q.0 && p.1@ == q.1,
            (None, None) => true,
            _ => false,
        }),
{
    match cfg.expected_speed {
        None => None,
        Some(want) => {
            if ifs.speed > want {
                Some((Severity::Warning, speed_above_string(ifs.speed, want)))
            } else if ifs.speed < want {
                let sev = if cfg.escalate_to_critical {
                    Severity::Critical
                } else {
                    Severity::Warning
                };
                Some((sev, speed_below_string(ifs.speed, want)))
            } else {
                Some((Severity::Okay, speed_ok_string(ifs.speed)))
            }
        },
    }
}

fn duplex_finding(cfg: &Configuration, ifs: &InterfaceState) -> (r: Option<(Severity, String)>)
    ensures
        (match (r, spec_duplex_finding(cfg@, ifs@)) {
            (Some(p), Some(q)) => p.0 == q.0 && p.1@ == q.1,
            (None, None) => true,
            _ => false,
        }),
{
    match cfg.expected_speed {
        None => None,
        Some(_) => {
            let is_half = str_eq(ifs.duplex.as_str(), "half");
            let is_full = str_eq(ifs.duplex.as_str(), "full");
            if !is_half && !is_full {
                Some((Severity::Unknown, duplex_unknown_string(&ifs.duplex)))
            } else {
                let want = duplex_str(cfg.expected_duplex);
                if !str_eq(ifs.duplex.as_str(), want) {
                    let sev = if cfg.escalate_to_critical {
                        Severity::Critical
                    } else {
                        Severity::Warning
                    };
                    Some((sev, duplex_mismatch_string(&ifs.duplex, want)))
                } else {
                    Some((Severity::Okay, duplex_ok_string(&ifs.duplex)))
                }
            }
        },
    }
}

fn mtu_finding(cfg: &Configuration, ifs: &InterfaceState) -> (r: Option<(Severity, String)>)
    ensures
        (match (r, spec_mtu_finding(cfg@, ifs@)) {
            (Some(p), Some(q)) => p.0 == q.0 && p.1@ == q.1,
            (None, None) => true,
            _ => false,
        }),
{
    match cfg.expected_mtu {
        None => None,
        Some(want) => {
            if ifs.mtu != want {
                let sev = if cfg.escalate_to_critical {
                    Severity::Critical
                } else {
                    Severity::Warning
                };
                Some((sev, mtu_mismatch_string(ifs.mtu, want)))
            } else {
                Some((Severity::Okay, mtu_ok_string(ifs.mtu)))
            }
        },
    }
}

fn addr_finding(cfg: &Configuration, ifs: &InterfaceState) -> (r: Option<(Severity, String)>)
    ensures
        (match (r, spec_addr_finding(cfg@, ifs@)) {
            (Some(p), Some(q)) => p.0 == q.0 && p.1@ == q.1,
            (None, None) => true,
            _ => false,
        }),
{
    if cfg.address_check == AddressCheck::Disabled {
        return None;
    }
    let ac = cfg.address_check;
    let mut ll: usize = 0;
    let mut nll: usize = 0;
    let mut i: usize = 0;
    while i < ifs.ips.len()
        invariant
            0 <= i <= ifs.ips@.len(),
            ll <= i,
            nll <= i,
            ac == cfg.address_check,
            ll == spec_count_scoped(ac, ifs.ips@.take(i as int), true),
            nll == spec_count_scoped(ac, ifs.ips@.take(i as int), false),
        decreases ifs.ips@.len() - i,
    {
        let a = ifs.ips[i];
        let scoped = match ac {
            AddressCheck::Disabled => false,
            AddressCheck::Ipv4 => matches!(a, Address::V4(_)),
            AddressCheck::Ipv6 => matches!(a, Address::V6(_)),
            AddressCheck::Both => true,
        };
        if scoped {
            if a.is_link_local() {
                ll += 1;
            } else {
                nll += 1;
            }
        }
        proof {
            assert(ifs.ips@.take(i + 1).drop_last() =~= ifs.ips@.take(i as int));
            assert(ifs.ips@.take(i + 1).last() == ifs.ips@[i as int]);
        }
        i += 1;
    }
    proof {
        assert(ifs.ips@.take(ifs.ips@.len() as int) =~= ifs.ips@);
    }
    if nll == 0 && ll == 0 {
        Some((Severity::Critical, String::from_str("No IP address assigned")))
    } else if nll == 0 {
        Some((Severity::Critical, String::from_str("Only link local address(es) are assigned")))
    } else {
        Some((Severity::Okay, String::from_str("Non link local address(es) assigned")))
    }
}

/// The result of one evaluation: four message buckets, each in emission
/// order; immutable once constructed.
pub struct NagiosStatus {
    pub critical: Vec<String>,
    pub warning: Vec<String>,
    pub ok: Vec<String>,
    pub unknown: Vec<String>,
}

impl View for NagiosStatus {
    type V = Buckets;

    open spec fn view(&self) -> Buckets {
        Buckets {
            critical: self.critical.deep_view(),
            warning: self.warning.deep_view(),
            ok: self.ok.deep_view(),
            unknown: self.unknown.deep_view(),
        }
    }
}

impl NagiosStatus {
    /// Evaluates the facts against the expectations, exactly as
    /// `spec_status` describes.
    #[verifier::rlimit(100)]
    pub fn new(cfg: &Configuration, ifs: &InterfaceState) -> (r: NagiosStatus)
        ensures
            r@ == spec_status(cfg@, ifs@),
    {
        let mut critical: Vec<String> = Vec::new();
        let mut warning: Vec<String> = Vec::new();
        let mut ok: Vec<String> = Vec::new();
        let mut unknown: Vec<String> = Vec::new();
        if !ifs.present {
            critical.push(String::from_str("Interface is not present"));
            let r = NagiosStatus { critical, warning, ok, unknown };
            proof {
                assert(r@ =~~= spec_status(cfg@, ifs@));
            }
            return r;
        }
        if str_eq(ifs.operstate.as_str(), "down") {
            critical.push(String::from_str("Interface is DOWN"));
            let r = NagiosStatus { critical, warning, ok, unknown };
            proof {
                assert(r@ =~~= spec_status(cfg@, ifs@));
            }
            return r;
        }
        if str_eq(ifs.operstate.as_str(), "up") {
            ok.push(String::from_str("Interface is up"));
        } else {
            let mut m = String::from_str("Interface is ");
            m.append(ifs.operstate.as_str());
            unknown.push(m);
            let r = NagiosStatus { critical, warning, ok, unknown };
            proof {
                assert(r@ =~~= spec_status(cfg@, ifs@));
            }
            return r;
        }
        let ghost sfd = spec_speed_finding(cfg@, ifs@);
        let ghost dfd = spec_duplex_finding(cfg@, ifs@);
        let ghost mfd = spec_mtu_finding(cfg@, ifs@);
        let ghost afd = spec_addr_finding(cfg@, ifs@);
        match speed_finding(cfg, ifs) {
            Some(p) => {
                let (sev, m) = p;
                match sev {
                    Severity::Okay => ok.push(m),
                    Severity::Warning => warning.push(m),
                    Severity::Critical => critical.push(m),
                    Severity::Unknown => unknown.push(m),
                }
            },
            None => {},
        }
        proof {
            assert(critical.deep_view() =~~= spec_pick(sfd, Severity::Critical));
            assert(warning.deep_view() =~~= spec_pick(sfd, Severity::Warning));
            assert(ok.deep_view() =~~= seq![msg_up()] + spec_pick(sfd, Severity::Okay));
            assert(unknown.deep_view() =~~= spec_pick(sfd, Severity::Unknown));
        }
        match duplex_finding(cfg, ifs) {
            Some(p) => {
                let (sev, m) = p;
                match sev {
                    Severity::Okay => ok.push(m),
                    Severity::Warning => warning.push(m),
                    Severity::Critical => critical.push(m),
                    Severity::Unknown => unknown.push(m),
                }
            },
            None => {},
        }
        proof {
            assert(critical.deep_view() =~~= spec_pick(sfd, Severity::Critical) + spec_pick(
                dfd,
                Severity::Critical,
            ));
            assert(warning.deep_view() =~~= spec_pick(sfd, Severity::Warning) + spec_pick(
                dfd,
                Severity::Warning,
            ));
            assert(ok.deep_view() =~~= seq![msg_up()] + spec_pick(sfd, Severity::Okay) + spec_pick(
                dfd,
                Severity::Okay,
            ));
            assert(unknown.deep_view() =~~= spec_pick(sfd, Severity::Unknown) + spec_pick(
                dfd,
                Severity::Unknown,
            ));
        }
        match mtu_finding(cfg, ifs) {
            Some(p) => {
                let (sev, m) = p;
                match sev {
                    Severity::Okay => ok.push(m),
                    Severity::Warning => warning.push(m),
                    Severity::Critical => critical.push(m),
                    Severity::Unknown => unknown.push(m),
                }
            },
            None => {},
        }
        proof {
            assert(critical.deep_view() =~~= spec_pick(sfd, Severity::Critical) + spec_pick(
                dfd,
                Severity::Critical,
            ) + spec_pick(mfd, Severity::Critical));
            assert(warning.deep_view() =~~= spec_pick(sfd, Severity::Warning) + spec_pick(
                dfd,
                Severity::Warning,
            ) + spec_pick(mfd, Severity::Warning));
            assert(ok.deep_view() =~~= seq![msg_up()] + spec_pick(sfd, Severity::Okay) + spec_pick(
                dfd,
                Severity::Okay,
            ) + spec_pick(mfd, Severity::Okay));
            assert(unknown.deep_view() =~~= spec_pick(sfd, Severity::Unknown) + spec_pick(
                dfd,
                Severity::Unknown,
            ) + spec_pick(mfd, Severity::Unknown));
        }
        match addr_finding(cfg, ifs) {
            Some(p) => {
                let (sev, m) = p;
                match sev {
                    Severity::Okay => ok.push(m),
                    Severity::Warning => warning.push(m),
                    Severity::Critical => critical.push(m),
                    Severity::Unknown => unknown.push(m),
                }
            },
            None => {},
        }
        let r = NagiosStatus { critical, warning, ok, unknown };
        proof {
            assert(r@.critical =~~= spec_checks_bucket(cfg@, ifs@, Severity::Critical));
            assert(r@.warning =~~= spec_checks_bucket(cfg@, ifs@, Severity::Warning));
            assert(r@.ok =~~= seq![msg_up()] + spec_checks_bucket(cfg@, ifs@, Severity::Okay));
            assert(r@.unknown =~~= spec_checks_bucket(cfg@, ifs@, Severity::Unknown));
            assert(r@ =~~= spec_status(cfg@, ifs@));
        }
        r
    }
}

/// The exit code an evaluation is reported with: the first non-empty
/// bucket in the precedence order unknown, critical, warning, ok; unknown
/// when every bucket is empty.
pub open spec fn spec_exit_code(b: Buckets) -> int {
    if b.unknown.len() > 0 {
        3
    } else if b.critical.len() > 0 {
        2
    } else if b.warning.len() > 0 {
        1
    } else if b.ok.len() > 0 {
        0
    } else {
        3
    }
}

/// Whether any bucket holds a message.
pub open spec fn spec_has_output(b: Buckets) -> bool {
    b.unknown.len() > 0 || b.critical.len() > 0 || b.warning.len() > 0 || b.ok.len() > 0
}

/// The output line: the winning bucket's messages joined with `", "`.
pub open spec fn spec_output_line(b: Buckets) -> Seq<char> {
    if b.unknown.len() > 0 {
        spec_join(b.unknown, ", "@)
    } else if b.critical.len() > 0 {
        spec_join(b.critical, ", "@)
    } else if b.warning.len() > 0 {
        spec_join(b.warning, ", "@)
    } else if b.ok.len() > 0 {
        spec_join(b.ok, ", "@)
    } else {
        Seq::empty()
    }
}

impl NagiosStatus {
    /// Picks the reported severity by precedence, joins the winning
    /// bucket into the output line, and maps the severity to its exit
    /// code; an evaluation with no message at all yields no line and the
    /// unknown exit code.
    pub fn report(&self) -> (r: (Option<String>, i32))
        ensures
            r.1 == spec_exit_code(self@),
            (match r.0 {
                Some(line) => spec_has_output(self@) && line@ == spec_output_line(self@),
                None => !spec_has_output(self@),
            }),
    {
        if self.unknown.len() > 0 {
            (Some(join_messages(&self.unknown, ", ")), STATE_UNKNOWN)
        } else if self.critical.len() > 0 {
            (Some(join_messages(&self.critical, ", ")), STATE_CRITICAL)
        } else if self.warning.len() > 0 {
            (Some(join_messages(&self.warning, ", ")), STATE_WARNING)
        } else if self.ok.len() > 0 {
            (Some(join_messages(&self.ok, ", ")), STATE_OK)
        } else {
            (None, STATE_UNKNOWN)
        }
    }
}

/// Law: facts for an absent interface yield exactly one critical message
/// and empty unknown, warning and ok buckets, whatever the expectations
/// and the remaining facts.
pub proof fn lemma_not_present(cfg: ConfigView, f: FactsView)
    requires
        !f.present,
    ensures
        spec_status(cfg, f).critical =~= seq![msg_not_present()],
        spec_status(cfg, f).warning.len() == 0,
        spec_status(cfg, f).ok.len() == 0,
        spec_status(cfg, f).unknown.len() == 0,
{
}

/// Law: an operational state of `down` yields exactly one critical
/// message and nothing else, whatever the speed, duplex, MTU and address
/// facts say.
pub proof fn lemma_down(cfg: ConfigView, f: FactsView)
    requires
        f.operstate == "down"@,
    ensures
        spec_status(cfg, f).critical.len() == 1,
        spec_status(cfg, f).warning.len() == 0,
        spec_status(cfg, f).ok.len() == 0,
        spec_status(cfg, f).unknown.len() == 0,
{
}

/// Law: an operational state that is neither `up` nor `down` yields
/// exactly one unknown message and nothing else, and the result does not
/// depend on the speed, duplex, MTU or address facts.
pub proof fn lemma_unexpected_state(cfg: ConfigView, f: FactsView, g: FactsView)
    requires
        f.present,
        f.operstate != "up"@,
        f.operstate != "down"@,
        g.present,
        g.operstate == f.operstate,
    ensures
        spec_status(cfg, f).unknown =~= seq![msg_state(f.operstate)],
        spec_status(cfg, f).critical.len() == 0,
        spec_status(cfg, f).warning.len() == 0,
        spec_status(cfg, f).ok.len() == 0,
        spec_status(cfg, f) == spec_status(cfg, g),
{
    assert(spec_status(cfg, f) =~~= spec_status(cfg, g));
}

/// Law: whenever the unknown bucket holds a message, the reported
/// severity is the unknown exit code, whatever the other buckets hold.
pub proof fn lemma_unknown_precedence(b: Buckets)
    requires
        b.unknown.len() > 0,
    ensures
        spec_exit_code(b) == 3,
        spec_output_line(b) == spec_join(b.unknown, ", "@),
{
}

/// Law: an enabled speed check whose expectation the negotiated speed
/// meets exactly always finds the speed in order, never a warning or a
/// critical condition; on an interface that is up, the ok bucket then
/// carries that message.
pub proof fn lemma_speed_equal_ok(cfg: ConfigView, f: FactsView)
    requires
        cfg.expected_speed == Some(f.speed),
    ensures
        spec_speed_finding(cfg, f) == Some((Severity::Okay, msg_speed_ok(f.speed))),
        f.present && f.operstate == "up"@ ==> spec_status(cfg, f).ok.contains(
            msg_speed_ok(f.speed),
        ),
{
    if f.present && f.operstate == "up"@ {
        reveal_strlit("up");
        reveal_strlit("down");
        assert(f.operstate != "down"@) by {
            assert("up"@.len() == 2 && "down"@.len() == 4);
        }
        let ps = spec_pick(spec_speed_finding(cfg, f), Severity::Okay);
        let pd = spec_pick(spec_duplex_finding(cfg, f), Severity::Okay);
        let pm = spec_pick(spec_mtu_finding(cfg, f), Severity::Okay);
        let pa = spec_pick(spec_addr_finding(cfg, f), Severity::Okay);
        assert(ps == seq![msg_speed_ok(f.speed)]);
        assert((ps + pd)[0] == ps[0]);
        assert((ps + pd + pm)[0] == (ps + pd)[0]);
        assert((ps + pd + pm + pa)[0] == (ps + pd + pm)[0]);
        assert(spec_checks_bucket(cfg, f, Severity::Okay) == ps + pd + pm + pa);
        assert(spec_status(cfg, f).ok == seq![msg_up()] + (ps + pd + pm + pa));
        assert((seq![msg_up()] + (ps + pd + pm + pa))[1] == (ps + pd + pm + pa)[0]);
        assert(spec_status(cfg, f).ok[1] == msg_speed_ok(f.speed));
        assert(spec_status(cfg, f).ok.contains(msg_speed_ok(f.speed)));
    }
}

/// The same expectations with mismatches escalated to critical.
pub open spec fn spec_escalated(cfg: ConfigView) -> ConfigView {
    ConfigView { escalate_to_critical: true, ..cfg }
}

/// Law: a speed below the expectation, a duplex mode away from the
/// expectation, or an MTU away from the expectation is a warning without
/// escalation and a critical condition with it, with the same message
/// either way. (A speed above the expectation stays a warning even under
/// escalation.)
pub proof fn lemma_escalation(cfg: ConfigView, f: FactsView)
    requires
        !cfg.escalate_to_critical,
    ensures
        cfg.expected_speed is Some && f.speed < cfg.expected_speed->0 ==> {
            let m = msg_speed_below(f.speed, cfg.expected_speed->0);
            spec_speed_finding(cfg, f) == Some((Severity::Warning, m))
                && spec_speed_finding(spec_escalated(cfg), f) == Some((Severity::Critical, m))
        },
        cfg.expected_speed is Some && (f.duplex == "half"@ || f.duplex == "full"@) && f.duplex
            != spec_duplex_seq(cfg.expected_duplex) ==> {
            let m = msg_duplex_mismatch(f.duplex, spec_duplex_seq(cfg.expected_duplex));
            spec_duplex_finding(cfg, f) == Some((Severity::Warning, m))
                && spec_duplex_finding(spec_escalated(cfg), f) == Some((Severity::Critical, m))
        },
        cfg.expected_mtu is Some && f.mtu != cfg.expected_mtu->0 ==> {
            let m = msg_mtu_mismatch(f.mtu, cfg.expected_mtu->0);
            spec_mtu_finding(cfg, f) == Some((Severity::Warning, m)) && spec_mtu_finding(
                spec_escalated(cfg),
                f,
            ) == Some((Severity::Critical, m))
        },
{
}

/// Law: with the address check enabled, no in-scope address at all is a
/// critical condition, in-scope addresses that are all link-local are a
/// critical condition, and any other in-scope address puts the check in
/// order, with the fixed messages.
pub proof fn lemma_address_check(cfg: ConfigView, f: FactsView)
    requires
        cfg.address_check != AddressCheck::Disabled,
    ensures
        ({
            let ll = spec_count_scoped(cfg.address_check, f.ips, true);
            let nll = spec_count_scoped(cfg.address_check, f.ips, false);
            &&& (ll == 0 && nll == 0 ==> spec_addr_finding(cfg, f) == Some(
                (Severity::Critical, msg_no_addr()),
            ))
            &&& (ll > 0 && nll == 0 ==> spec_addr_finding(cfg, f) == Some(
                (Severity::Critical, msg_only_link_local()),
            ))
            &&& (nll > 0 ==> spec_addr_finding(cfg, f) == Some((Severity::Okay, msg_addr_ok())))
        }),
{
}

/// Law: an evaluation always emits at least one message, so the
/// reporter's all-empty fallback can never be reached from an evaluation.
pub proof fn lemma_status_has_output(cfg: ConfigView, f: FactsView)
    ensures
        spec_has_output(spec_status(cfg, f)),
{
}

/// A message of the MTU check, for any observed and requested size.
pub open spec fn spec_is_mtu_message(m: Seq<char>) -> bool {
    (exists|g: int, w: int| m == msg_mtu_mismatch(g, w)) || (exists|g: int| m == msg_mtu_ok(g))
}

/// No message of the sequence belongs to the MTU check.
pub open spec fn spec_no_mtu_messages(s: Seq<Seq<char>>) -> bool {
    forall|i: int| 0 <= i < s.len() ==> !spec_is_mtu_message(#[trigger] s[i])
}

proof fn lemma_not_mtu_message(m: Seq<char>)
    requires
        m.len() > 0,
        m[0] != 'M',
    ensures
        !spec_is_mtu_message(m),
{
    reveal_strlit("MTU size of ");
    reveal_strlit("MTU size is ");
    if exists|g: int, w: int| m == msg_mtu_mismatch(g, w) {
        let (g, w) = choose|g: int, w: int| m == msg_mtu_mismatch(g, w);
        assert(m[0] == ("MTU size of "@)[0]);
        assert(false);
    }
    if exists|g: int| m == msg_mtu_ok(g) {
        let g = choose|g: int| m == msg_mtu_ok(g);
        assert(m[0] == ("MTU size is "@)[0]);
        assert(false);
    }
}

proof fn lemma_finding_msgs_not_mtu(cfg: ConfigView, f: FactsView)
    ensures
        (match spec_speed_finding(cfg, f) {
            Some(p) => !spec_is_mtu_message(p.1),
            None => true,
        }),
        (match spec_duplex_finding(cfg, f) {
            Some(p) => !spec_is_mtu_message(p.1),
            None => true,
        }),
        (match spec_addr_finding(cfg, f) {
            Some(p) => !spec_is_mtu_message(p.1),
            None => true,
        }),
{
    reveal_strlit("Negotiated interface speed (");
    reveal_strlit("Negotiated interface speed is ");
    reveal_strlit("Unknown duplex mode ");
    reveal_strlit("Negotiated duplex mode is ");
    reveal_strlit("No IP address assigned");
    reveal_strlit("Only link local address(es) are assigned");
    reveal_strlit("Non link local address(es) assigned");
    match spec_speed_finding(cfg, f) {
        Some(p) => {
            assert(p.1.len() > 0 && p.1[0] == 'N');
            lemma_not_mtu_message(p.1);
        },
        None => {},
    }
    match spec_duplex_finding(cfg, f) {
        Some(p) => {
            assert(p.1.len() > 0 && (p.1[0] == 'N' || p.1[0] == 'U'));
            lemma_not_mtu_message(p.1);
        },
        None => {},
    }
    match spec_addr_finding(cfg, f) {
        Some(p) => {
            assert(p.1.len() > 0 && (p.1[0] == 'N' || p.1[0] == 'O'));
            lemma_not_mtu_message(p.1);
        },
        None => {},
    }
}

proof fn lemma_checks_bucket_no_mtu(cfg: ConfigView, f: FactsView, sev: Severity)
    requires
        cfg.expected_mtu is None,
    ensures
        spec_no_mtu_messages(spec_checks_bucket(cfg, f, sev)),
{
    lemma_finding_msgs_not_mtu(cfg, f);
    let ps = spec_pick(spec_speed_finding(cfg, f), sev);
    let pd = spec_pick(spec_duplex_finding(cfg, f), sev);
    let pm = spec_pick(spec_mtu_finding(cfg, f), sev);
    let pa = spec_pick(spec_addr_finding(cfg, f), sev);
    assert(pm.len() == 0);
    assert forall|i: int|
        0 <= i < spec_checks_bucket(cfg, f, sev).len() implies !spec_is_mtu_message(
        #[trigger] spec_checks_bucket(cfg, f, sev)[i],
    ) by {
        let c = spec_checks_bucket(cfg, f, sev);
        assert(c == ps + pd + pm + pa);
        if i < ps.len() {
            assert(c[i] == ps[0]);
        } else if i < ps.len() + pd.len() {
            assert(c[i] == pd[0]);
        } else {
            assert(c[i] == pa[i - ps.len() - pd.len()]);
            assert(c[i] == pa[0]);
        }
    }
}

/// Law: with the MTU check disabled, no MTU message appears in any
/// bucket, whatever the facts say.
pub proof fn lemma_mtu_disabled(cfg: ConfigView, f: FactsView)
    requires
        cfg.expected_mtu is None,
    ensures
        spec_mtu_finding(cfg, f) is None,
        spec_no_mtu_messages(spec_status(cfg, f).critical),
        spec_no_mtu_messages(spec_status(cfg, f).warning),
        spec_no_mtu_messages(spec_status(cfg, f).ok),
        spec_no_mtu_messages(spec_status(cfg, f).unknown),
{
    reveal_strlit("Interface is not present");
    reveal_strlit("Interface is DOWN");
    reveal_strlit("Interface is ");
    reveal_strlit("Interface is up");
    let b = spec_status(cfg, f);
    if !f.present {
        lemma_not_mtu_message(msg_not_present());
    } else if f.operstate == "down"@ {
        lemma_not_mtu_message(msg_down());
    } else if f.operstate != "up"@ {
        assert(msg_state(f.operstate)[0] == ("Interface is "@)[0]);
        lemma_not_mtu_message(msg_state(f.operstate));
    } else {
        lemma_checks_bucket_no_mtu(cfg, f, Severity::Critical);
        lemma_checks_bucket_no_mtu(cfg, f, Severity::Warning);
        lemma_checks_bucket_no_mtu(cfg, f, Severity::Okay);
        lemma_checks_bucket_no_mtu(cfg, f, Severity::Unknown);
        lemma_not_mtu_message(msg_up());
        let c = spec_checks_bucket(cfg, f, Severity::Okay);
        assert forall|i: int| 0 <= i < b.ok.len() implies !spec_is_mtu_message(
            #[trigger] b.ok[i],
        ) by {
            assert(b.ok == seq![msg_up()] + c);
            if i == 0 {
                assert(b.ok[0] == msg_up());
            } else {
                assert(b.ok[i] == c[i - 1]);
            }
        }
    }
}

} // verus!
