use waylandcraft::audio::{eq_ignore_ascii_case, find_process_audio, AudioNode, AudioPort, AudioTopology};

fn node(id: u32, class: &str, pid: u32, proc_name: &str) -> AudioNode {
    AudioNode {
        id,
        media_class: class.to_string(),
        app_pid: pid,
        node_name: format!("node-{id}"),
        process_name: proc_name.to_string(),
    }
}

fn port(id: u32, node: u32, is_output: bool) -> AudioPort {
    AudioPort { id, node, is_output }
}

#[test]
fn output_stream_of_the_process_tree_wins() {
    let topo = AudioTopology {
        nodes: vec![
            node(30, "Audio/Sink", 100, "firefox"),
            node(31, "Stream/Output/Audio", 101, "firefox"),
            node(32, "Stream/Output/Audio", 555, "firefox"),
        ],
        ports: vec![port(70, 31, false), port(71, 31, true), port(72, 31, true)],
    };
    assert_eq!(find_process_audio(100, &vec![100, 101], Some("firefox"), &topo), Ok((31, 71)));
}

#[test]
fn tree_match_beats_name_match() {
    let topo = AudioTopology {
        nodes: vec![node(1, "Stream/Output/Audio", 9, "Game"), node(2, "Audio/Sink", 5, "other")],
        ports: vec![port(10, 1, true), port(20, 2, true)],
    };
    // The name match scores 2, the tree match 11.
    assert_eq!(find_process_audio(5, &vec![5], Some("game"), &topo), Ok((2, 20)));
}

#[test]
fn name_match_is_the_fallback() {
    let topo = AudioTopology {
        nodes: vec![node(1, "Stream/Output/Audio", 9, "Game"), node(2, "Video/Source", 9, "Game")],
        ports: vec![port(10, 1, true)],
    };
    assert_eq!(find_process_audio(5, &vec![5, 6], Some("gAME"), &topo), Ok((1, 10)));
}

#[test]
fn ties_go_to_the_first_listed() {
    let topo = AudioTopology {
        nodes: vec![node(4, "Stream/Output/Audio", 7, ""), node(3, "Stream/Output/Audio", 7, "")],
        ports: vec![port(9, 3, true), port(8, 4, true)],
    };
    assert_eq!(find_process_audio(7, &vec![7], None, &topo), Ok((4, 8)));
}

#[test]
fn zero_score_name_match_is_not_chosen() {
    let topo = AudioTopology {
        nodes: vec![node(1, "Video/Source", 9, "game")],
        ports: vec![port(10, 1, true)],
    };
    assert_eq!(
        find_process_audio(5, &vec![5], Some("game"), &topo),
        Err("no PipeWire audio node found for pid=5 (tree=1 nodes, exe=Some(\"game\")) — app may be silent or audio not on PipeWire\ncandidates:\n  node 1: class=Video/Source pid=9 proc=game".to_string())
    );
}

#[test]
fn no_node_lists_every_candidate() {
    let topo = AudioTopology {
        nodes: vec![node(1, "Audio/Sink", 2, "a"), node(3, "Stream/Output/Audio", 4, "")],
        ports: vec![],
    };
    assert_eq!(
        find_process_audio(8, &vec![8, 9], None, &topo),
        Err("no PipeWire audio node found for pid=8 (tree=2 nodes, exe=None) — app may be silent or audio not on PipeWire\ncandidates:\n  node 1: class=Audio/Sink pid=2 proc=a\n  node 3: class=Stream/Output/Audio pid=4 proc=".to_string())
    );
}

#[test]
fn chosen_node_without_output_port() {
    let topo = AudioTopology {
        nodes: vec![node(12, "Stream/Output/Audio", 8, "")],
        ports: vec![port(1, 12, false), port(2, 13, true)],
    };
    assert_eq!(find_process_audio(8, &vec![8], None, &topo), Err("node 12 has no output port".to_string()));
}

#[test]
fn ascii_case_comparison() {
    assert!(eq_ignore_ascii_case("Firefox", "fIREFOX"));
    assert!(!eq_ignore_ascii_case("Firefox", "Firefo"));
    assert!(!eq_ignore_ascii_case("É", "é"));
    assert!(eq_ignore_ascii_case("", ""));
}
