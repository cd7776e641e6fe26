//! Classification of backend start-up failures and the probe report.
//!
//! Backends are tried in order (wayland-ti3, dbus-ibus, dbus-fcitx5); the
//! first that is ready is used. Each failure adds one entry to a report,
//! and when all fail the report, joined with `"; "`, is the reason given.

use vstd::prelude::*;
use crate::host_bridge::structural_ibus_error;
use crate::text::{contains_seq, str_contains};
use super::ImeInit;

verus! {

/// Why probing the owner of a bus name failed.
pub enum ProbeErr {
    /// Nobody owns the name: the service is not there.
    Unsupported(String),
    Transient(String),
}

/// The class of an input-context setup error: `"UNSUPPORTED"` for a
/// structural error, `"TRANSIENT"` otherwise.
pub fn classify_init_error(e: &str) -> (res: &'static str)
    ensures
        res@ == (if structural_ibus_error(e@) { "UNSUPPORTED"@ } else { "TRANSIENT"@ }),
{
    if str_contains(e, "UnknownMethod") || str_contains(e, "UnknownObject") || str_contains(
        e,
        "InterfaceNotFound",
    ) || str_contains(e, "ServiceUnknown") || str_contains(e, "NameHasNoOwner") {
        "UNSUPPORTED"
    } else {
        "TRANSIENT"
    }
}

/// Whether a `GetNameOwner` error says that the name has no owner.
pub open spec fn no_owner_error(e: Seq<char>) -> bool {
    contains_seq(e, "ServiceUnknown"@) || contains_seq(e, "NameHasNoOwner"@) || contains_seq(
        e,
        "The name does not exist"@,
    ) || contains_seq(e, "1.2"@)
}

/// The probe failure of a `GetNameOwner` call on `service` that failed with `e`.
pub fn owner_error(service: &str, e: &str) -> (res: ProbeErr)
    ensures
        match res {
            ProbeErr::Unsupported(m) => no_owner_error(e@) && m@ == "session bus 上没有 "@ + service@
                + "（需要 ibus-portal 进程在运行；名字无主）"@,
            ProbeErr::Transient(m) => !no_owner_error(e@) && m@ == "GetNameOwner 失败: "@ + e@,
        },
{
    if str_contains(e, "ServiceUnknown") || str_contains(e, "NameHasNoOwner") || str_contains(
        e,
        "The name does not exist",
    ) || str_contains(e, "1.2") {
        let mut m = String::from_str("session bus 上没有 ");
        m.append(service);
        m.append("（需要 ibus-portal 进程在运行；名字无主）");
        ProbeErr::Unsupported(m)
    } else {
        let mut m = String::from_str("GetNameOwner 失败: ");
        m.append(e);
        ProbeErr::Transient(m)
    }
}

/// `backend`, a colon and a space, then `msg`.
pub open spec fn labelled(backend: Seq<char>, msg: Seq<char>) -> Seq<char> {
    backend + ": "@ + msg
}

fn label(backend: &str, msg: &str) -> (res: String)
    ensures
        res@ == labelled(backend@, msg@),
{
    let mut m = String::from_str(backend);
    m.append(": ");
    m.append(msg);
    m
}

/// The start-up outcome of `backend` when probing its bus name failed.
pub fn probe_failed<B>(backend: &str, err: ProbeErr) -> (res: ImeInit<B>)
    ensures
        match (err, res) {
            (ProbeErr::Unsupported(m), ImeInit::Unsupported(r)) => r@ == labelled(backend@, m@),
            (ProbeErr::Transient(m), ImeInit::Transient(r)) => r@ == labelled(backend@, m@),
            _ => false,
        },
{
    match err {
        ProbeErr::Unsupported(m) => ImeInit::Unsupported(label(backend, m.as_str())),
        ProbeErr::Transient(m) => ImeInit::Transient(label(backend, m.as_str())),
    }
}

/// The start-up outcome of `backend` when creating its input context
/// failed with `e`: `Unsupported` for a structural error, else `Transient`.
pub fn init_failed<B>(backend: &str, e: &str) -> (res: ImeInit<B>)
    ensures
        match res {
            ImeInit::Unsupported(r) => structural_ibus_error(e@) && r@ == labelled(backend@, e@),
            ImeInit::Transient(r) => !structural_ibus_error(e@) && r@ == labelled(backend@, e@),
            ImeInit::Ready(_) => false,
        },
{
    let m = label(backend, e);
    proof {
        reveal_strlit("UNSUPPORTED");
        reveal_strlit("TRANSIENT");
        assert("TRANSIENT"@.len() != "UNSUPPORTED"@.len());
    }
    if crate::text::str_eq(classify_init_error(e), "UNSUPPORTED") {
        ImeInit::Unsupported(m)
    } else {
        ImeInit::Transient(m)
    }
}

/// How long the creation of an input context may take, in seconds.
pub const INIT_TIMEOUT_SECS: u64 = 6u64;

/// The start-up outcome of `backend` when its input context was not created
/// within [`INIT_TIMEOUT_SECS`]: a transient failure.
pub fn init_timed_out<B>(backend: &str) -> (res: ImeInit<B>)
    ensures
        match res {
            ImeInit::Transient(r) => r@ == labelled(backend@, "init timeout(6s)"@),
            _ => false,
        },
{
    ImeInit::Transient(label(backend, "init timeout(6s)"))
}

/// The report entry of a backend that is not ready, or the ready backend.
pub fn report_entry<B>(backend: &str, init: ImeInit<B>) -> (res: Result<B, String>)
    ensures
        match (init, res) {
            (ImeInit::Ready(b), Ok(r)) => r == b,
            (ImeInit::Transient(m), Err(e)) => e@ == labelled(backend@, "TRANSIENT "@ + m@),
            (ImeInit::Unsupported(m), Err(e)) => e@ == labelled(backend@, m@),
            _ => false,
        },
{
    match init {
        ImeInit::Ready(b) => Ok(b),
        ImeInit::Transient(m) => {
            let mut t = String::from_str("TRANSIENT ");
            t.append(m.as_str());
            Err(label(backend, t.as_str()))
        },
        ImeInit::Unsupported(m) => Err(label(backend, m.as_str())),
    }
}

/// The report entry when there is no Wayland display to probe ti3 on.
pub fn ti3_skipped() -> (res: String)
    ensures
        res@ == "wayland-ti3: 跳过（Minecraft 非 native Wayland 后端，无 GLFW wl_display）"@,
{
    String::from_str("wayland-ti3: 跳过（Minecraft 非 native Wayland 后端，无 GLFW wl_display）")
}

/// The report entry of the planned XIM backend.
pub fn xim_unavailable() -> (res: String)
    ensures
        res@ == "x11-xim: 未实现（规划中）"@,
{
    String::from_str("x11-xim: 未实现（规划中）")
}

/// The parts joined with `sep` between neighbours.
pub open spec fn joined(parts: Seq<Seq<char>>, sep: Seq<char>) -> Seq<char>
    decreases parts.len(),
{
    if parts.len() == 0 {
        Seq::empty()
    } else if parts.len() == 1 {
        parts[0]
    } else {
        joined(parts.drop_last(), sep) + sep + parts.last()
    }
}

/// The report of a failed probe: its entries joined with `"; "`.
pub fn join_report(parts: &[String]) -> (res: String)
    ensures
        res@ == joined(crate::ime_event::strings_view(parts@), "; "@),
{
    let ghost ps = crate::ime_event::strings_view(parts@);
    let mut out = String::new();
    let n = parts.len();
    let mut i: usize = 0;
    while i < n
        invariant
            n == parts@.len(),
            ps == crate::ime_event::strings_view(parts@),
            i <= n,
            out@ == joined(ps.take(i as int), "; "@),
        decreases n - i,
    {
        proof {
            assert(ps.take(i + 1).drop_last() =~= ps.take(i as int));
            assert(ps.take(i + 1).last() == parts@[i as int]@);
        }
        if i > 0 {
            out.append("; ");
        } else {
            assert(ps.take(1)[0] == parts@[0]@);
            assert(out@ + parts@[0]@ =~= parts@[0]@);
        }
        out.append(parts[i].as_str());
        i = i + 1;
    }
    assert(ps.take(n as int) =~= ps);
    out
}

} // verus!
