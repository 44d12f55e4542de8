//! Tests for graph validation, traversal order, and the event stream.

use agentflow::engine::run_workflow;
use agentflow::events::{WorkflowError, WorkflowEvent};
use agentflow::graph::{Edge, GraphDescription, Node};

fn node(id: &str, name: &str) -> Node {
    Node {
        id: id.to_string(),
        node_type: "agent".to_string(),
        name: Some(name.to_string()),
    }
}

fn edge(id: &str, source: &str, target: &str) -> Edge {
    Edge {
        id: id.to_string(),
        source: source.to_string(),
        target: target.to_string(),
    }
}

fn log_messages(events: &[WorkflowEvent]) -> Vec<String> {
    events
        .iter()
        .filter_map(|e| match e {
            WorkflowEvent::Log { message } => Some(message.clone()),
            WorkflowEvent::Finished { .. } => None,
        })
        .collect()
}

#[test]
fn empty_workflow_two_events() {
    let g = GraphDescription { nodes: vec![], edges: vec![] };
    let events = run_workflow(&g).expect("empty workflow runs");
    assert_eq!(events.len(), 2);
    assert_eq!(
        events[0],
        WorkflowEvent::Log { message: "[INFO] Workflow is empty. Nothing to run.".to_string() }
    );
    assert_eq!(events[1], WorkflowEvent::Finished { success: true });
}

#[test]
fn linear_two_nodes_events() {
    let g = GraphDescription {
        nodes: vec![node("1", "A"), node("2", "B")],
        edges: vec![edge("e1", "1", "2")],
    };
    let events = run_workflow(&g).expect("valid workflow runs");
    assert_eq!(
        events,
        vec![
            WorkflowEvent::Log {
                message: "[EXEC] Visiting node 'A' (Type: agent)".to_string()
            },
            WorkflowEvent::Log {
                message: "[EXEC] Visiting node 'B' (Type: agent)".to_string()
            },
            WorkflowEvent::Log { message: "[INFO] Workflow traversal complete.".to_string() },
            WorkflowEvent::Finished { success: true },
        ]
    );
}

#[test]
fn full_cycle_rejected_with_zero_found() {
    let g = GraphDescription {
        nodes: vec![node("1", "A"), node("2", "B")],
        edges: vec![edge("e1", "1", "2"), edge("e2", "2", "1")],
    };
    let err = run_workflow(&g).expect_err("a full cycle has no start node");
    assert_eq!(err, WorkflowError::GraphValidation { found: 0 });
    assert_eq!(
        err.message(),
        "Workflow must have exactly one start node (a node with no incoming edges). Found 0."
    );
}

#[test]
fn two_start_nodes_rejected() {
    let g = GraphDescription {
        nodes: vec![node("1", "A"), node("2", "B")],
        edges: vec![],
    };
    let err = run_workflow(&g).expect_err("two start candidates are rejected");
    assert_eq!(err, WorkflowError::GraphValidation { found: 2 });
    assert!(err.message().ends_with("Found 2."));
}

#[test]
fn diamond_visits_each_reachable_node_once() {
    let g = GraphDescription {
        nodes: vec![node("a", "A"), node("b", "B"), node("c", "C"), node("d", "D")],
        edges: vec![
            edge("e1", "a", "b"),
            edge("e2", "a", "c"),
            edge("e3", "b", "d"),
            edge("e4", "c", "d"),
        ],
    };
    let events = run_workflow(&g).expect("diamond runs");
    let logs = log_messages(&events);
    // four visits (D once, despite two paths), then the closing log
    assert_eq!(
        logs,
        vec![
            "[EXEC] Visiting node 'A' (Type: agent)",
            "[EXEC] Visiting node 'B' (Type: agent)",
            "[EXEC] Visiting node 'C' (Type: agent)",
            "[EXEC] Visiting node 'D' (Type: agent)",
            "[INFO] Workflow traversal complete.",
        ]
    );
    assert_eq!(events.last(), Some(&WorkflowEvent::Finished { success: true }));
}

#[test]
fn cycle_behind_start_terminates() {
    let g = GraphDescription {
        nodes: vec![node("a", "A"), node("b", "B"), node("c", "C")],
        edges: vec![edge("e1", "a", "b"), edge("e2", "b", "c"), edge("e3", "c", "b")],
    };
    let events = run_workflow(&g).expect("cycle behind the start node runs");
    assert_eq!(events.len(), 5);
    let logs = log_messages(&events);
    assert_eq!(logs[0], "[EXEC] Visiting node 'A' (Type: agent)");
    assert_eq!(logs[1], "[EXEC] Visiting node 'B' (Type: agent)");
    assert_eq!(logs[2], "[EXEC] Visiting node 'C' (Type: agent)");
}

#[test]
fn unnamed_node_gets_placeholder() {
    let g = GraphDescription {
        nodes: vec![Node { id: "1".to_string(), node_type: "tool".to_string(), name: None }],
        edges: vec![],
    };
    let events = run_workflow(&g).expect("single node runs");
    assert_eq!(
        events[0],
        WorkflowEvent::Log {
            message: "[EXEC] Visiting node 'Unnamed' (Type: tool)".to_string()
        }
    );
}

#[test]
fn successor_order_follows_edge_declaration() {
    let g = GraphDescription {
        nodes: vec![node("a", "A"), node("b", "B"), node("c", "C")],
        edges: vec![edge("e1", "a", "c"), edge("e2", "a", "b")],
    };
    let events = run_workflow(&g).expect("runs");
    let logs = log_messages(&events);
    assert_eq!(logs[0], "[EXEC] Visiting node 'A' (Type: agent)");
    assert_eq!(logs[1], "[EXEC] Visiting node 'C' (Type: agent)");
    assert_eq!(logs[2], "[EXEC] Visiting node 'B' (Type: agent)");
}

#[test]
fn identical_input_gives_identical_events() {
    let g = GraphDescription {
        nodes: vec![node("a", "A"), node("b", "B"), node("c", "C")],
        edges: vec![edge("e1", "a", "b"), edge("e2", "a", "c")],
    };
    let first = run_workflow(&g).expect("runs");
    let second = run_workflow(&g).expect("runs");
    assert_eq!(first, second);
}

#[test]
fn dangling_edge_source_is_ignored_but_target_counts() {
    // the edge from an unknown source still gives A an incoming edge,
    // so no start candidate is left
    let g = GraphDescription {
        nodes: vec![node("a", "A"), node("b", "B")],
        edges: vec![edge("e1", "ghost", "a"), edge("e2", "a", "b")],
    };
    let err = run_workflow(&g).expect_err("no start candidate remains");
    assert_eq!(err, WorkflowError::GraphValidation { found: 0 });
}

#[test]
fn unreachable_island_is_not_visited() {
    // d points at itself, so it is no start candidate and stays unreached
    let g = GraphDescription {
        nodes: vec![node("a", "A"), node("b", "B"), node("d", "D")],
        edges: vec![edge("e1", "a", "b"), edge("e2", "d", "d")],
    };
    let events = run_workflow(&g).expect("runs");
    let logs = log_messages(&events);
    assert_eq!(logs.len(), 3);
    assert!(!logs.iter().any(|m| m.contains("'D'")));
}

#[test]
fn unique_id_check() {
    let ok = GraphDescription { nodes: vec![node("a", "A"), node("b", "B")], edges: vec![] };
    assert!(ok.has_unique_ids());
    let dup = GraphDescription { nodes: vec![node("a", "A"), node("a", "B")], edges: vec![] };
    assert!(!dup.has_unique_ids());
}

#[test]
fn decimal_rendering() {
    assert_eq!(agentflow::events::fmt_u64(0), "0");
    assert_eq!(agentflow::events::fmt_u64(7), "7");
    assert_eq!(agentflow::events::fmt_u64(10), "10");
    assert_eq!(agentflow::events::fmt_u64(12345), "12345");
    assert_eq!(agentflow::events::fmt_u64(18446744073709551615), "18446744073709551615");
}

#[test]
fn string_equality_helper() {
    assert!(agentflow::str_eq("abc", "abc"));
    assert!(!agentflow::str_eq("abc", "abd"));
    assert!(!agentflow::str_eq("abc", "ab"));
    assert!(agentflow::str_eq("", ""));
}

#[test]
fn error_messages_are_descriptive() {
    assert_eq!(
        WorkflowError::BuiltInRoleMutation.message(),
        "Cannot modify built-in roles"
    );
    assert_eq!(
        WorkflowError::Deserialization { message: "bad json".to_string() }.message(),
        "Failed to parse workflow graph: bad json"
    );
    assert_eq!(
        WorkflowError::ChannelEmit { message: "closed".to_string() }.message(),
        "Failed to emit event: closed"
    );
    assert_eq!(
        WorkflowError::Persistence { message: "disk full".to_string() }.message(),
        "disk full"
    );
}
