use vstd::prelude::*;
use crate::turn::{role_of_name, turn_views, ChatMessage, Role, TurnView};

verus! {

/// The payload fields of one point returned by the vector index, each absent
/// when the point does not carry it as the expected type.
#[derive(Debug, Clone)]
pub struct RecalledPoint {
    pub role: Option<String>,
    pub content: Option<String>,
    pub timestamp: Option<i64>,
}

/// The turn a point stands for in session `sid`: it needs a known role and a
/// content; a missing timestamp reads as zero.
pub open spec fn point_turn(sid: Seq<char>, p: RecalledPoint) -> Option<TurnView> {
    match (p.role, p.content) {
        (Some(r), Some(c)) => match role_of_name(r@) {
            Some(role) => Some(
                TurnView {
                    session_id: sid,
                    role,
                    content: c@,
                    timestamp: match p.timestamp {
                        Some(t) => t,
                        None => 0,
                    },
                },
            ),
            None => None,
        },
        _ => None,
    }
}

/// The turns that the points stand for, in the index's order, skipping the
/// points that stand for none.
pub open spec fn point_turns(sid: Seq<char>, ps: Seq<RecalledPoint>) -> Seq<TurnView>
    decreases ps.len(),
{
    if ps.len() == 0 {
        Seq::empty()
    } else {
        match point_turn(sid, ps.last()) {
            Some(t) => point_turns(sid, ps.drop_last()).push(t),
            None => point_turns(sid, ps.drop_last()),
        }
    }
}

/// The recalled turns of session `session_id`: the first `limit` of those that
/// the points stand for, in the index's order of similarity.
pub fn recalled_turns(session_id: &str, points: &Vec<RecalledPoint>, limit: usize) -> (r: Vec<
    ChatMessage,
>)
    ensures
        turn_views(r@) == point_turns(session_id@, points@).take(
            if point_turns(session_id@, points@).len() <= limit {
                point_turns(session_id@, points@).len() as int
            } else {
                limit as int
            },
        ),
        r@.len() <= limit,
{
    let ghost sid = session_id@;
    let mut r: Vec<ChatMessage> = Vec::new();
    let mut i: usize = 0;
    while i < points.len()
        invariant
            i <= points@.len(),
            sid == session_id@,
            r@.len() <= limit,
            r@.len() < limit ==> turn_views(r@) == point_turns(sid, points@.subrange(0, i as int)),
            r@.len() == limit ==> turn_views(r@) == point_turns(
                sid,
                points@.subrange(0, i as int),
            ).take(limit as int),
            r@.len() == limit ==> point_turns(sid, points@.subrange(0, i as int)).len() >= limit,
        decreases points@.len() - i,
    {
        let ghost pre = points@.subrange(0, i as int);
        let ghost next = points@.subrange(0, i + 1);
        assert(next.drop_last() =~= pre);
        assert(next.last() == points@[i as int]);
        assert(point_turns(sid, next) == match point_turn(sid, points@[i as int]) {
            Some(t) => point_turns(sid, pre).push(t),
            None => point_turns(sid, pre),
        });
        if r.len() < limit {
            let p = &points[i];
            match (&p.role, &p.content) {
                (Some(role_text), Some(content)) => {
                    match Role::from_name(role_text.as_str()) {
                        Some(role) => {
                            let ts: i64 = match p.timestamp {
                                Some(t) => t,
                                None => 0,
                            };
                            let ghost before = r@;
                            let owner = String::from_str(session_id);
                            r.push(
                                ChatMessage {
                                    session_id: owner,
                                    role,
                                    content: content.clone(),
                                    timestamp: ts,
                                },
                            );
                            proof {
                                assert(point_turn(sid, points@[i as int]) == Some(r@.last()@));
                                assert(turn_views(r@) =~= turn_views(before).push(r@.last()@));
                                if r@.len() == limit {
                                    assert(point_turns(sid, next).take(limit as int)
                                        =~= point_turns(sid, next));
                                }
                            }
                        },
                        None => {},
                    }
                },
                _ => {},
            }
        } else {
            proof {
                lemma_point_turns_extend(sid, next);
                assert(point_turns(sid, next).take(limit as int) =~= point_turns(sid, pre).take(
                    limit as int,
                ));
            }
        }
        i = i + 1;
    }
    assert(points@.subrange(0, points@.len() as int) =~= points@);
    r
}

/// Adding a point keeps the turns already recalled as a prefix.
proof fn lemma_point_turns_extend(sid: Seq<char>, ps: Seq<RecalledPoint>)
    requires
        ps.len() > 0,
    ensures
        point_turns(sid, ps.drop_last()).is_prefix_of(point_turns(sid, ps)),
{
}

} // verus!
