use chat_store::chat_ctx::{render_line, ChatCtx, ChatMsg};

#[test]
fn chat_msg_new_and_get_id() {
    let m = ChatMsg::new(5, "hi".to_string(), "User".to_string());
    assert_eq!(m.get_id(), 5);
    assert_eq!(m.message, "hi");
    assert_eq!(m.user_type, "User");
}

#[test]
fn chat_msg_clone_is_equal() {
    let m = ChatMsg::new(3, "text".to_string(), "Agent".to_string());
    let c = m.clone();
    assert!(c == m);
    assert_eq!(c.get_id(), 3);
    assert_eq!(c.message, "text");
    assert_eq!(c.user_type, "Agent");
}

#[test]
fn chat_msg_eq_distinguishes_fields() {
    let a = ChatMsg::new(1, "x".to_string(), "Agent".to_string());
    let b = ChatMsg::new(2, "x".to_string(), "Agent".to_string());
    let c = ChatMsg::new(1, "y".to_string(), "Agent".to_string());
    let d = ChatMsg::new(1, "x".to_string(), "User".to_string());
    assert!(a != b);
    assert!(a != c);
    assert!(a != d);
    assert!(a == ChatMsg::new(1, "x".to_string(), "Agent".to_string()));
}

#[test]
fn scenario_two_appends() {
    let mut ctx = ChatCtx::new();
    let id = ctx.add_msg("hello".to_string(), "Agent".to_string());
    assert_eq!(id, 0);
    let snap = ctx.snapshot();
    assert_eq!(snap.len(), 1);
    assert_eq!(snap[0].get_id(), 0);
    assert_eq!(snap[0].message, "hello");
    assert_eq!(snap[0].user_type, "Agent");

    let id = ctx.add_msg("world".to_string(), "User".to_string());
    assert_eq!(id, 1);
    let snap = ctx.snapshot();
    assert_eq!(snap.len(), 2);
    assert_eq!(snap[0].get_id(), 0);
    assert_eq!(snap[0].message, "hello");
    assert_eq!(snap[0].user_type, "Agent");
    assert_eq!(snap[1].get_id(), 1);
    assert_eq!(snap[1].message, "world");
    assert_eq!(snap[1].user_type, "User");
}

#[test]
fn ids_follow_call_order() {
    let mut ctx = ChatCtx::new();
    let mut returned: Vec<i32> = Vec::new();
    for k in 0..8 {
        returned.push(ctx.add_msg(format!("message {}", k), "Agent".to_string()));
    }
    assert_eq!(returned, vec![0, 1, 2, 3, 4, 5, 6, 7]);
}

#[test]
fn snapshot_len_tracks_appends() {
    let mut ctx = ChatCtx::new();
    assert_eq!(ctx.snapshot().len(), 0);
    for k in 0..5 {
        ctx.add_msg(format!("m{}", k), "Agent".to_string());
        assert_eq!(ctx.snapshot().len(), k + 1);
    }
}

#[test]
fn ids_distinct_and_strictly_increasing() {
    let mut ctx = ChatCtx::new();
    for k in 0..6 {
        ctx.add_msg(format!("m{}", k), "Agent".to_string());
    }
    let snap = ctx.snapshot();
    for i in 0..snap.len() {
        for j in (i + 1)..snap.len() {
            assert!(snap[i].get_id() < snap[j].get_id());
            assert!(snap[i].get_id() != snap[j].get_id());
        }
    }
}

#[test]
fn interleaved_callers_cover_id_range() {
    // Three simulated callers take turns appending to one shared store, in a
    // scrambled order; serialization must hand out each identifier once, so
    // the union of the returned ids is exactly 0..N.
    let mut ctx = ChatCtx::new();
    let schedule = [0usize, 2, 1, 2, 0, 1, 0, 2, 1, 1, 0, 2];
    let mut returned: Vec<i32> = Vec::new();
    for (turn, caller) in schedule.iter().enumerate() {
        let id = ctx.add_msg(format!("turn {}", turn), format!("caller {}", caller));
        returned.push(id);
    }
    let mut sorted = returned.clone();
    sorted.sort();
    let expected: Vec<i32> = (0..schedule.len() as i32).collect();
    assert_eq!(sorted, expected);
    sorted.dedup();
    assert_eq!(sorted.len(), schedule.len());
}

#[test]
fn empty_text_message_is_stored() {
    let mut ctx = ChatCtx::new();
    let id = ctx.add_msg("".to_string(), "Agent".to_string());
    assert_eq!(id, 0);
    let snap = ctx.snapshot();
    assert_eq!(snap.len(), 1);
    assert_eq!(snap[0].message, "");
    assert_eq!(snap[0].user_type, "Agent");
}

#[test]
fn snapshot_twice_without_append_identical() {
    let mut ctx = ChatCtx::new();
    ctx.add_msg("one".to_string(), "Agent".to_string());
    ctx.add_msg("two".to_string(), "User".to_string());
    let first = ctx.snapshot();
    let second = ctx.snapshot();
    assert!(first == second);
}

#[test]
fn chat_ctx_clone_keeps_transcript_and_counter() {
    let mut ctx = ChatCtx::new();
    ctx.add_msg("one".to_string(), "Agent".to_string());
    ctx.add_msg("two".to_string(), "User".to_string());
    let copy = ctx.clone();
    assert!(copy.snapshot() == ctx.snapshot());
    let mut copy = copy;
    let id = copy.add_msg("three".to_string(), "Agent".to_string());
    assert_eq!(id, 2);
    assert_eq!(copy.snapshot().len(), 3);
    assert_eq!(ctx.snapshot().len(), 2);
}

#[test]
fn render_line_formats_author_then_text() {
    let m = ChatMsg::new(0, "hello".to_string(), "Agent".to_string());
    assert_eq!(render_line(&m), "Agent:hello");
    let empty = ChatMsg::new(1, "".to_string(), "User".to_string());
    assert_eq!(render_line(&empty), "User:");
}
