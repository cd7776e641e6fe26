//! Choosing the PipeWire node that carries a window's sound.
//!
//! Audio nodes carry the id and the executable name of the process that
//! plays them. A window belongs to a process; its sound is found on a node
//! of that process or of one of its descendants (multi-process browsers
//! play from child processes), or, as a fallback, on a node whose process
//! name is the window process's executable. Output streams are preferred
//! to sinks, and a process-tree match to a name match.

use vstd::prelude::*;
use crate::text::{contains_seq, decimal, push_decimal, str_contains, str_eq};

verus! {

/// An audio node of the PipeWire graph.
#[derive(Debug, Clone, PartialEq, Eq)]
pub struct AudioNode {
    pub id: u32,
    /// `media.class`, such as `Stream/Output/Audio` or `Audio/Sink`.
    pub media_class: String,
    /// `application.process.id`; 0 when absent.
    pub app_pid: u32,
    pub node_name: String,
    /// `application.process.binary`; empty when absent.
    pub process_name: String,
}

/// A port of the PipeWire graph.
#[derive(Debug, Clone, Copy, PartialEq, Eq, Structural)]
pub struct AudioPort {
    pub id: u32,
    /// The node the port belongs to.
    pub node: u32,
    pub is_output: bool,
}

/// The nodes and ports of the graph, in the order they were listed.
#[derive(Debug, Clone, PartialEq, Eq, Default)]
pub struct AudioTopology {
    pub nodes: Vec<AudioNode>,
    pub ports: Vec<AudioPort>,
}

pub struct AudioNodeView {
    pub id: u32,
    pub media_class: Seq<char>,
    pub app_pid: u32,
    pub process_name: Seq<char>,
}

impl View for AudioNode {
    type V = AudioNodeView;

    open spec fn view(&self) -> AudioNodeView {
        AudioNodeView {
            id: self.id,
            media_class: self.media_class@,
            app_pid: self.app_pid,
            process_name: self.process_name@,
        }
    }
}

pub open spec fn nodes_view(v: Seq<AudioNode>) -> Seq<AudioNodeView> {
    v.map_values(|n: AudioNode| n@)
}

/// The character code with ASCII capitals lowered.
pub open spec fn ascii_lower_code(c: char) -> int {
    if 65 <= (c as int) <= 90 {
        c as int + 32
    } else {
        c as int
    }
}

/// Equality of two texts when ASCII letters are compared without case.
pub open spec fn same_ignoring_ascii_case(a: Seq<char>, b: Seq<char>) -> bool {
    a.len() == b.len() && forall|i: int| 0 <= i < a.len() ==> ascii_lower_code(#[trigger] a[i]) == ascii_lower_code(b[i])
}

/// Whether the node belongs to the window's process tree.
pub open spec fn pid_match(n: AudioNodeView, tree: Seq<u32>) -> bool {
    tree.contains(n.app_pid)
}

/// Whether the node's process name is the window process's executable
/// (only looked at when the process tree does not match).
pub open spec fn name_match(n: AudioNodeView, tree: Seq<u32>, exe: Option<Seq<char>>) -> bool {
    !pid_match(n, tree) && exe is Some && n.process_name.len() > 0 && same_ignoring_ascii_case(
        n.process_name,
        exe->Some_0,
    )
}

/// 2 for an output stream, 1 for a sink, 0 otherwise.
pub open spec fn class_score(media_class: Seq<char>) -> int {
    if contains_seq(media_class, "Stream/Output/Audio"@) {
        2
    } else if media_class == "Audio/Sink"@ {
        1
    } else {
        0
    }
}

/// The class score, raised by 10 for a process-tree match.
pub open spec fn node_score(n: AudioNodeView, tree: Seq<u32>) -> int {
    class_score(n.media_class) + if pid_match(n, tree) {
        10int
    } else {
        0int
    }
}

/// A node that may be chosen: it matches the window's process and has a
/// positive score.
pub open spec fn candidate(n: AudioNodeView, tree: Seq<u32>, exe: Option<Seq<char>>) -> bool {
    (pid_match(n, tree) || name_match(n, tree, exe)) && node_score(n, tree) > 0
}

/// The chosen node: a candidate of the highest score, the first listed
/// among those of that score.
pub open spec fn chosen(ns: Seq<AudioNodeView>, tree: Seq<u32>, exe: Option<Seq<char>>, i: int) -> bool {
    &&& 0 <= i < ns.len()
    &&& candidate(ns[i], tree, exe)
    &&& forall|j: int| 0 <= j < i && candidate(#[trigger] ns[j], tree, exe) ==> node_score(ns[j], tree) < node_score(ns[i], tree)
    &&& forall|j: int| i < j < ns.len() && candidate(#[trigger] ns[j], tree, exe) ==> node_score(ns[j], tree) <= node_score(ns[i], tree)
}

pub open spec fn no_candidate(ns: Seq<AudioNodeView>, tree: Seq<u32>, exe: Option<Seq<char>>) -> bool {
    forall|j: int| 0 <= j < ns.len() ==> !candidate(#[trigger] ns[j], tree, exe)
}

/// The first output port of a node, in the order listed.
pub open spec fn first_output_port(ps: Seq<AudioPort>, node: u32) -> Option<u32>
    decreases ps.len(),
{
    if ps.len() == 0 {
        None
    } else if ps[0].node == node && ps[0].is_output {
        Some(ps[0].id)
    } else {
        first_output_port(ps.drop_first(), node)
    }
}

/// The result of Rust's `Debug` formatting of a text (quoted and escaped).
pub uninterp spec fn debug_text(s: Seq<char>) -> Seq<char>;

/// Calls `Debug` formatting on a text; its result is named [`debug_text`].
#[verifier::external_body]
fn debug_of(s: &str) -> (res: String)
    ensures
        res@ == debug_text(s@),
{
    format!("{:?}", s)
}

/// `Debug` formatting of the executable name: `None` or `Some("…")`.
pub open spec fn exe_debug(exe: Option<Seq<char>>) -> Seq<char> {
    match exe {
        Some(s) => "Some("@ + debug_text(s) + ")"@,
        None => "None"@,
    }
}

/// One line of the candidate list.
pub open spec fn candidate_line(n: AudioNodeView) -> Seq<char> {
    "  node "@ + decimal(n.id as nat) + ": class="@ + n.media_class + " pid="@ + decimal(n.app_pid as nat)
        + " proc="@ + n.process_name
}

/// The candidate lines of all nodes, separated by newlines.
pub open spec fn candidate_lines(ns: Seq<AudioNodeView>) -> Seq<char>
    decreases ns.len(),
{
    if ns.len() == 0 {
        Seq::empty()
    } else if ns.len() == 1 {
        candidate_line(ns[0])
    } else {
        candidate_lines(ns.drop_last()) + "\n"@ + candidate_line(ns.last())
    }
}

/// The error when no node matches the window's process.
pub open spec fn no_node_message(pid: u32, tree_len: nat, exe: Option<Seq<char>>, ns: Seq<AudioNodeView>) -> Seq<char> {
    "no PipeWire audio node found for pid="@ + decimal(pid as nat) + " (tree="@ + decimal(tree_len) + " nodes, exe="@
        + exe_debug(exe) + ") — app may be silent or audio not on PipeWire\ncandidates:\n"@ + candidate_lines(ns)
}

/// The error when the chosen node has no output port.
pub open spec fn no_port_message(node: u32) -> Seq<char> {
    "node "@ + decimal(node as nat) + " has no output port"@
}

pub open spec fn opt_text(o: Option<&str>) -> Option<Seq<char>> {
    match o {
        Some(s) => Some(s@),
        None => None,
    }
}

fn contains_pid(tree: &Vec<u32>, pid: u32) -> (res: bool)
    ensures
        res == tree@.contains(pid),
{
    let mut i: usize = 0;
    while i < tree.len()
        invariant
            i <= tree@.len(),
            forall|j: int| 0 <= j < i ==> tree@[j] != pid,
        decreases tree@.len() - i,
    {
        if tree[i] == pid {
            assert(tree@[i as int] == pid);
            return true;
        }
        i = i + 1;
    }
    false
}

/// Compares two texts with ASCII letters taken without case (see
/// [`same_ignoring_ascii_case`]).
pub fn eq_ignore_ascii_case(a: &str, b: &str) -> (res: bool)
    ensures
        res == same_ignoring_ascii_case(a@, b@),
{
    let n = a.unicode_len();
    if n != b.unicode_len() {
        return false;
    }
    let mut i: usize = 0;
    while i < n
        invariant
            n == a@.len(),
            n == b@.len(),
            i <= n,
            forall|j: int| 0 <= j < i ==> ascii_lower_code(#[trigger] a@[j]) == ascii_lower_code(b@[j]),
        decreases n - i,
    {
        let x = a.get_char(i) as u32;
        let y = b.get_char(i) as u32;
        let lx = if 65 <= x && x <= 90 { x + 32 } else { x };
        let ly = if 65 <= y && y <= 90 { y + 32 } else { y };
        if lx != ly {
            return false;
        }
        i = i + 1;
    }
    true
}

fn class_score_of(media_class: &str) -> (res: i32)
    ensures
        res == class_score(media_class@),
{
    if str_contains(media_class, "Stream/Output/Audio") {
        2
    } else if str_eq(media_class, "Audio/Sink") {
        1
    } else {
        0
    }
}

fn push_candidate_lines(out: &mut String, nodes: &Vec<AudioNode>)
    ensures
        final(out)@ == old(out)@ + candidate_lines(nodes_view(nodes@)),
{
    let ghost start = out@;
    let ghost nv = nodes_view(nodes@);
    let mut i: usize = 0;
    while i < nodes.len()
        invariant
            nv == nodes_view(nodes@),
            i <= nodes@.len(),
            out@ == start + candidate_lines(nv.take(i as int)),
        decreases nodes@.len() - i,
    {
        if i > 0 {
            out.append("\n");
        }
        let n = &nodes[i];
        out.append("  node ");
        push_decimal(out, n.id as u64);
        out.append(": class=");
        out.append(n.media_class.as_str());
        out.append(" pid=");
        push_decimal(out, n.app_pid as u64);
        out.append(" proc=");
        out.append(n.process_name.as_str());
        proof {
            assert(nv.take(i + 1).drop_last() =~= nv.take(i as int));
            assert(nv.take(i + 1).last() == nv[i as int]);
            if i == 0 {
                assert(nv.take(1)[0] == nv[0]);
            }
            assert(out@ =~= start + candidate_lines(nv.take(i + 1)));
        }
        i = i + 1;
    }
    assert(nv.take(nodes@.len() as int) =~= nv);
}

fn no_node_error(pid: u32, tree_len: usize, exe_name: Option<&str>, nodes: &Vec<AudioNode>) -> (res: String)
    ensures
        res@ == no_node_message(pid, tree_len as nat, opt_text(exe_name), nodes_view(nodes@)),
{
    let mut out = String::from_str("no PipeWire audio node found for pid=");
    push_decimal(&mut out, pid as u64);
    out.append(" (tree=");
    push_decimal(&mut out, tree_len as u64);
    out.append(" nodes, exe=");
    match exe_name {
        Some(e) => {
            out.append("Some(");
            let d = debug_of(e);
            out.append(d.as_str());
            out.append(")");
        },
        None => out.append("None"),
    }
    out.append(") — app may be silent or audio not on PipeWire\ncandidates:\n");
    push_candidate_lines(&mut out, nodes);
    assert(out@ =~= no_node_message(pid, tree_len as nat, opt_text(exe_name), nodes_view(nodes@)));
    out
}

fn find_output_port(ports: &Vec<AudioPort>, node: u32) -> (res: Option<u32>)
    ensures
        res == first_output_port(ports@, node),
{
    let mut i: usize = 0;
    assert(ports@.skip(0) =~= ports@);
    while i < ports.len()
        invariant
            i <= ports@.len(),
            first_output_port(ports@, node) == first_output_port(ports@.skip(i as int), node),
        decreases ports@.len() - i,
    {
        let p = ports[i];
        assert(ports@.skip(i as int)[0] == p);
        assert(ports@.skip(i as int).drop_first() =~= ports@.skip(i + 1));
        if p.node == node && p.is_output {
            return Some(p.id);
        }
        i = i + 1;
    }
    assert(ports@.skip(i as int).len() == 0);
    None
}

/// Finds the audio node of a window's process and the node's first output
/// port. `tree` is the window process with its descendants, `exe_name`
/// the executable name of the window process when known.
pub fn find_process_audio(pid: u32, tree: &Vec<u32>, exe_name: Option<&str>, topo: &AudioTopology) -> (res: Result<(u32, u32), String>)
    ensures
        ({
            let nv = nodes_view(topo.nodes@);
            let exe = opt_text(exe_name);
            &&& no_candidate(nv, tree@, exe) ==> (match res {
                Ok(_) => false,
                Err(m) => m@ == no_node_message(pid, tree@.len(), exe, nv),
            })
            &&& forall|i: int| #[trigger] chosen(nv, tree@, exe, i) ==> (match first_output_port(topo.ports@, nv[i].id) {
                Some(p) => res == Ok::<(u32, u32), String>((nv[i].id, p)),
                None => match res {
                    Ok(_) => false,
                    Err(m) => m@ == no_port_message(nv[i].id),
                },
            })
        }),
{
    let ghost nv = nodes_view(topo.nodes@);
    let ghost exe = opt_text(exe_name);
    let mut best_node: Option<u32> = None;
    let mut best_score: i32 = 0;
    let ghost mut best: int = -1;
    let n = topo.nodes.len();
    let mut k: usize = 0;
    while k < n
        invariant
            n == topo.nodes@.len(),
            nv == nodes_view(topo.nodes@),
            exe == opt_text(exe_name),
            k <= n,
            -1 <= best < k,
            best == -1 ==> best_node is None && best_score == 0 && forall|j: int| 0 <= j < k ==> !candidate(
                #[trigger] nv[j],
                tree@,
                exe,
            ),
            best >= 0 ==> {
                &&& best_node == Some(nv[best].id)
                &&& candidate(nv[best], tree@, exe)
                &&& best_score == node_score(nv[best], tree@)
                &&& forall|j: int| 0 <= j < best && candidate(#[trigger] nv[j], tree@, exe) ==> node_score(nv[j], tree@) < best_score
                &&& forall|j: int| best < j < k && candidate(#[trigger] nv[j], tree@, exe) ==> node_score(nv[j], tree@) <= best_score
            },
        decreases n - k,
    {
        let node = &topo.nodes[k];
        assert(nv[k as int] == node@);
        let pid_ok = contains_pid(tree, node.app_pid);
        let name_ok = !pid_ok && match exe_name {
            Some(e) => node.process_name.unicode_len() > 0 && eq_ignore_ascii_case(node.process_name.as_str(), e),
            None => false,
        };
        if pid_ok || name_ok {
            let mut score = class_score_of(node.media_class.as_str());
            if pid_ok {
                score = score + 10;
            }
            assert(score == node_score(nv[k as int], tree@));
            if score > best_score {
                best_score = score;
                best_node = Some(node.id);
                proof {
                    best = k as int;
                }
            }
        }
        k = k + 1;
    }
    let node_id = match best_node {
        Some(id) => id,
        None => {
            return Err(no_node_error(pid, tree.len(), exe_name, &topo.nodes));
        },
    };
    proof {
        assert(chosen(nv, tree@, exe, best));
        assert forall|i: int| #[trigger] chosen(nv, tree@, exe, i) implies i == best by {
            if i < best {
                assert(node_score(nv[i], tree@) < node_score(nv[best], tree@));
            } else if i > best {
                assert(node_score(nv[best], tree@) < node_score(nv[i], tree@));
            }
        }
    }
    match find_output_port(&topo.ports, node_id) {
        Some(p) => Ok((node_id, p)),
        None => {
            let mut m = String::from_str("node ");
            push_decimal(&mut m, node_id as u64);
            m.append(" has no output port");
            assert(m@ =~= no_port_message(node_id));
            Err(m)
        },
    }
}

/// The index of the chosen node among the first `k` nodes, or -1 when
/// none of them is a candidate.
proof fn lemma_best_of_prefix(ns: Seq<AudioNodeView>, tree: Seq<u32>, exe: Option<Seq<char>>, k: int) -> (best: int)
    requires
        0 <= k <= ns.len(),
    ensures
        -1 <= best < k,
        best == -1 ==> forall|j: int| 0 <= j < k ==> !candidate(#[trigger] ns[j], tree, exe),
        best >= 0 ==> {
            &&& candidate(ns[best], tree, exe)
            &&& forall|j: int| 0 <= j < best && candidate(#[trigger] ns[j], tree, exe) ==> node_score(ns[j], tree) < node_score(ns[best], tree)
            &&& forall|j: int| best < j < k && candidate(#[trigger] ns[j], tree, exe) ==> node_score(ns[j], tree) <= node_score(ns[best], tree)
        },
    decreases k,
{
    if k == 0 {
        -1
    } else {
        let prev = lemma_best_of_prefix(ns, tree, exe, k - 1);
        if candidate(ns[k - 1], tree, exe) && (prev == -1 || node_score(ns[k - 1], tree) > node_score(ns[prev], tree)) {
            k - 1
        } else {
            prev
        }
    }
}

/// When some node matches the window's process, exactly one node is chosen.
pub proof fn law_one_node_is_chosen(ns: Seq<AudioNodeView>, tree: Seq<u32>, exe: Option<Seq<char>>)
    requires
        !no_candidate(ns, tree, exe),
    ensures
        exists|i: int| chosen(ns, tree, exe, i),
        forall|i: int, j: int| chosen(ns, tree, exe, i) && chosen(ns, tree, exe, j) ==> i == j,
{
    let best = lemma_best_of_prefix(ns, tree, exe, ns.len() as int);
    assert(best >= 0);
    assert(chosen(ns, tree, exe, best));
    assert forall|i: int, j: int| chosen(ns, tree, exe, i) && chosen(ns, tree, exe, j) implies i == j by {
        if i < j {
            assert(node_score(ns[i], tree) < node_score(ns[j], tree));
        } else if j < i {
            assert(node_score(ns[j], tree) < node_score(ns[i], tree));
        }
    }
}

} // verus!
