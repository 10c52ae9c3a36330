use photo_moderation::reconcile::{plan_reconcile, ReactionType, Reactions, StoredReaction};

fn remote(kind: ReactionType, content: Option<&str>, count: u64) -> Reactions {
    Reactions { kind, content: content.map(|c| c.to_string()), count }
}

fn stored(id: u128, kind: ReactionType, content: Option<&str>, count: u64) -> StoredReaction {
    StoredReaction { id, kind, content: content.map(|c| c.to_string()), count }
}

fn upserts(p: &photo_moderation::reconcile::ReconcilePlan) -> Vec<(ReactionType, Option<String>, u64)> {
    let mut v: Vec<_> = p.upsert.iter().map(|r| (r.kind, r.content.clone(), r.count)).collect();
    v.sort_by(|a, b| format!("{:?}", a).cmp(&format!("{:?}", b)));
    v
}

#[test]
fn reconcile_replaces_stored_set_with_snapshot() {
    let s = vec![
        stored(1, ReactionType::Emoji, Some("👍"), 3),
        stored(2, ReactionType::Emoji, Some("🔥"), 1),
        stored(3, ReactionType::Paid, None, 2),
    ];
    let r = vec![remote(ReactionType::Emoji, Some("👍"), 5), remote(ReactionType::CustomEmoji, Some("5368"), 1)];
    let p = plan_reconcile(&s, r);
    assert_eq!(p.delete, vec![2, 3]);
    let mut expected = vec![
        (ReactionType::Emoji, Some("👍".to_string()), 5),
        (ReactionType::CustomEmoji, Some("5368".to_string()), 1),
    ];
    expected.sort_by(|a, b| format!("{:?}", a).cmp(&format!("{:?}", b)));
    assert_eq!(upserts(&p), expected);
}

#[test]
fn empty_snapshot_clears_everything() {
    let s = vec![stored(7, ReactionType::Emoji, Some("❤"), 4), stored(8, ReactionType::Paid, None, 1)];
    let p = plan_reconcile(&s, Vec::new());
    assert_eq!(p.delete, vec![7, 8]);
    assert!(p.upsert.is_empty());
}

#[test]
fn empty_store_gets_whole_snapshot() {
    let p = plan_reconcile(&Vec::new(), vec![remote(ReactionType::Paid, None, 9)]);
    assert!(p.delete.is_empty());
    assert_eq!(upserts(&p), vec![(ReactionType::Paid, None, 9)]);
}

#[test]
fn repeated_descriptor_is_upserted_once_with_last_count() {
    let r = vec![
        remote(ReactionType::Emoji, Some("👍"), 1),
        remote(ReactionType::Emoji, Some("👍"), 6),
    ];
    let p = plan_reconcile(&Vec::new(), r);
    assert_eq!(upserts(&p), vec![(ReactionType::Emoji, Some("👍".to_string()), 6)]);
}

#[test]
fn kind_is_part_of_the_key() {
    let s = vec![stored(1, ReactionType::Emoji, Some("5368"), 2)];
    let p = plan_reconcile(&s, vec![remote(ReactionType::CustomEmoji, Some("5368"), 2)]);
    assert_eq!(p.delete, vec![1]);
    assert_eq!(upserts(&p), vec![(ReactionType::CustomEmoji, Some("5368".to_string()), 2)]);
}
