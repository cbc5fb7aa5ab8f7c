use hirsch_man::{Limiters, Member, Membership, Options, Org};

fn org(allows: [bool; 2], cost: [u32; 3], quality: u32, price: u32) -> Org {
    Org { allows, cost, quality, price }
}

fn membership(held: Option<Org>, alternatives: Vec<Org>) -> Membership {
    Membership {
        org: held,
        alternatives,
        relevant: [Limiters::Quality, Limiters::Quality],
        maximize: Limiters::Quality,
        limiters: [2, 0],
        tolerance: [0, 0],
        max_cost: [1, 1, 1],
        elastic: true,
        influence: 1,
    }
}

#[test]
fn voice_raises_quality_by_influence() {
    let mut m = membership(Some(org([false, true], [0, 0, 0], 1, 0)), vec![]);
    assert_eq!(Member::decision_making(&mut m), Some(Options::Voice));
    assert_eq!(m.org, Some(org([false, true], [0, 0, 0], 2, 0)));
    assert!(m.alternatives.is_empty());
}

#[test]
fn voice_adds_the_whole_influence() {
    let mut m = membership(Some(org([false, true], [0, 0, 0], 3, 9)), vec![]);
    m.limiters = [10, 0];
    m.influence = 4;
    assert_eq!(Member::decision_making(&mut m), Some(Options::Voice));
    assert_eq!(m.org.as_ref().map(|o| o.quality), Some(7));
    assert_eq!(m.org.as_ref().map(|o| o.price), Some(9));
}

#[test]
fn voice_repeats_until_decline_clears() {
    let mut m = membership(Some(org([false, true], [0, 0, 0], 0, 0)), vec![]);
    m.limiters = [3, 0];
    assert_eq!(Member::decision_making(&mut m), Some(Options::Voice));
    assert_eq!(Member::decision_making(&mut m), Some(Options::Voice));
    assert_eq!(Member::decision_making(&mut m), Some(Options::Voice));
    assert_eq!(m.org.as_ref().map(|o| o.quality), Some(3));
    assert_eq!(Member::decision_making(&mut m), None);
    assert_eq!(m.org.as_ref().map(|o| o.quality), Some(3));
}

#[test]
fn elastic_exit_empties_current_and_appends_to_pool() {
    let held = org([true, false], [0, 0, 0], 1, 0);
    let mut m = membership(Some(held.clone()), vec![]);
    m.influence = 0;
    assert_eq!(Member::decision_making(&mut m), Some(Options::Exit));
    assert_eq!(m.org, None);
    assert_eq!(m.alternatives, vec![held]);
}

#[test]
fn exit_without_alternative_appends_after_the_pool() {
    let held = org([true, false], [0, 0, 0], 1, 0);
    let poor = org([true, true], [0, 0, 0], 1, 0);
    let dear = org([true, true], [0, 0, 5], 9, 0);
    let mut m = membership(Some(held.clone()), vec![poor.clone(), dear.clone()]);
    m.influence = 0;
    assert_eq!(Member::decision_making(&mut m), Some(Options::Exit));
    assert_eq!(m.org, None);
    assert_eq!(m.alternatives, vec![poor, dear, held]);
}

#[test]
fn terminal_membership_never_acts_again() {
    let held = org([true, false], [0, 0, 0], 1, 0);
    let mut m = membership(Some(held.clone()), vec![]);
    m.influence = 0;
    assert_eq!(Member::decision_making(&mut m), Some(Options::Exit));
    for _ in 0..5 {
        assert_eq!(Member::decision_making(&mut m), None);
        assert_eq!(m.org, None);
        assert_eq!(m.alternatives, vec![held.clone()]);
    }
}

#[test]
fn empty_current_is_a_safe_no_op() {
    let alt = org([true, true], [0, 0, 0], 5, 0);
    let mut m = membership(None, vec![alt.clone()]);
    assert_eq!(Member::decision_making(&mut m), None);
    assert_eq!(m.org, None);
    assert_eq!(m.alternatives, vec![alt]);
}

#[test]
fn exit_swaps_with_the_single_alternative() {
    let held = org([true, false], [1, 1, 1], 1, 0);
    let alt = org([true, true], [1, 1, 1], 2, 0);
    let mut m = membership(Some(held.clone()), vec![alt.clone()]);
    m.max_cost = [2, 2, 2];
    m.elastic = false;
    m.influence = 0;
    assert_eq!(Member::decision_making(&mut m), Some(Options::Exit));
    assert_eq!(m.org, Some(alt));
    assert_eq!(m.alternatives, vec![held]);
}

#[test]
fn exit_swap_keeps_pool_size_and_other_entries() {
    let held = org([true, false], [0, 0, 0], 1, 7);
    let dear = org([true, true], [0, 0, 3], 4, 0);
    let cheap = org([false, true], [2, 2, 1], 2, 3);
    let poor = org([true, true], [0, 0, 0], 1, 0);
    let mut m = membership(Some(held.clone()), vec![dear.clone(), poor.clone(), cheap.clone()]);
    m.max_cost = [3, 3, 3];
    m.elastic = false;
    m.influence = 0;
    assert_eq!(Member::decision_making(&mut m), Some(Options::Exit));
    assert_eq!(m.org, Some(cheap));
    assert_eq!(m.alternatives, vec![dear, poor, held.clone()]);
    assert_eq!(m.alternatives.iter().filter(|o| **o == held).count(), 1);
}

#[test]
fn exit_adds_the_held_organization_once_more() {
    let held = org([true, false], [0, 0, 0], 1, 0);
    let alt = org([true, true], [0, 0, 0], 2, 0);
    let mut m = membership(Some(held.clone()), vec![held.clone(), alt.clone(), held.clone()]);
    m.influence = 0;
    assert_eq!(Member::decision_making(&mut m), Some(Options::Exit));
    assert_eq!(m.org, Some(alt));
    assert_eq!(m.alternatives.len(), 3);
    assert_eq!(m.alternatives.iter().filter(|o| **o == held).count(), 3);
}

#[test]
fn exit_to_an_identical_alternative_leaves_counts_as_they_were() {
    let held = org([true, false], [0, 0, 0], 5, 9);
    let mut m = membership(Some(held.clone()), vec![held.clone()]);
    m.relevant = [Limiters::Price, Limiters::Price];
    m.limiters = [2, 3];
    m.influence = 0;
    assert_eq!(Member::decision_making(&mut m), Some(Options::Exit));
    assert_eq!(m.org, Some(held.clone()));
    assert_eq!(m.alternatives, vec![held]);
}

#[test]
fn no_decline_leaves_membership_unchanged() {
    let held = org([true, true], [0, 0, 0], 2, 0);
    let alt = org([true, true], [0, 0, 0], 9, 0);
    let mut m = membership(Some(held.clone()), vec![alt.clone()]);
    assert_eq!(Member::decision_making(&mut m), None);
    assert_eq!(m.org, Some(held));
    assert_eq!(m.alternatives, vec![alt]);
    assert_eq!(m.relevant, [Limiters::Quality, Limiters::Quality]);
    assert_eq!(m.maximize, Limiters::Quality);
    assert_eq!(m.limiters, [2, 0]);
    assert_eq!(m.tolerance, [0, 0]);
    assert_eq!(m.max_cost, [1, 1, 1]);
    assert!(m.elastic);
    assert_eq!(m.influence, 1);
}

#[test]
fn no_decline_with_both_dimensions() {
    let mut m = membership(Some(org([true, true], [0, 0, 0], 2, 5)), vec![]);
    m.relevant = [Limiters::Quality, Limiters::Price];
    m.limiters = [2, 5];
    assert_eq!(Member::decision_making(&mut m), None);
    assert_eq!(m.org, Some(org([true, true], [0, 0, 0], 2, 5)));
}

#[test]
fn voice_preempts_an_eligible_exit_when_decline_is_tolerated() {
    let alt = org([true, true], [0, 0, 0], 5, 0);
    let mut m = membership(Some(org([true, true], [0, 0, 0], 2, 0)), vec![alt.clone()]);
    m.limiters = [3, 0];
    m.tolerance = [1, 0];
    assert_eq!(Member::decision_making(&mut m), Some(Options::Voice));
    assert_eq!(m.org, Some(org([true, true], [0, 0, 0], 3, 0)));
    assert_eq!(m.alternatives, vec![alt]);
}

#[test]
fn usable_voice_blocks_exit_when_decline_is_not_tolerated() {
    let held = org([true, true], [0, 0, 0], 1, 0);
    let alt = org([true, true], [0, 0, 0], 5, 0);
    let mut m = membership(Some(held.clone()), vec![alt.clone()]);
    assert_eq!(Member::decision_making(&mut m), None);
    assert_eq!(m.org, Some(held));
    assert_eq!(m.alternatives, vec![alt]);
}

#[test]
fn tolerated_decline_without_voice_does_nothing() {
    let held = org([true, false], [0, 0, 0], 2, 0);
    let mut m = membership(Some(held.clone()), vec![]);
    m.limiters = [3, 0];
    m.tolerance = [1, 0];
    assert_eq!(Member::decision_making(&mut m), None);
    assert_eq!(m.org, Some(held));
}

#[test]
fn price_only_decline_triggers_exit() {
    let held = org([true, false], [0, 0, 0], 9, 6);
    let mut m = membership(Some(held.clone()), vec![]);
    m.relevant = [Limiters::Price, Limiters::Price];
    m.limiters = [0, 5];
    m.influence = 0;
    assert_eq!(Member::decision_making(&mut m), Some(Options::Exit));
    assert_eq!(m.org, None);
    assert_eq!(m.alternatives, vec![held]);
}

#[test]
fn check_runs_each_membership_on_its_own() {
    let voiced = org([false, true], [0, 0, 0], 1, 0);
    let leaving = org([true, false], [0, 0, 0], 1, 0);
    let content = org([true, true], [0, 0, 0], 2, 0);
    let mut quiet = membership(Some(leaving.clone()), vec![]);
    quiet.influence = 0;
    let mut member = Member {
        org_vec: vec![
            membership(Some(voiced), vec![]),
            quiet,
            membership(Some(content.clone()), vec![]),
            membership(None, vec![]),
        ],
    };
    member.check();
    assert_eq!(member.org_vec.len(), 4);
    assert_eq!(member.org_vec[0].org, Some(org([false, true], [0, 0, 0], 2, 0)));
    assert_eq!(member.org_vec[1].org, None);
    assert_eq!(member.org_vec[1].alternatives, vec![leaving]);
    assert_eq!(member.org_vec[2].org, Some(content));
    assert_eq!(member.org_vec[3].org, None);
    assert!(member.org_vec[3].alternatives.is_empty());
}

#[test]
fn check_on_no_memberships() {
    let mut member = Member { org_vec: vec![] };
    member.check();
    assert!(member.org_vec.is_empty());
}

#[test]
fn voice_executor_adds_influence() {
    let mut m = membership(Some(org([false, false], [9, 9, 9], 10, 3)), vec![]);
    m.influence = 5;
    Member::voice(&mut m);
    assert_eq!(m.org, Some(org([false, false], [9, 9, 9], 15, 3)));
    Member::voice(&mut m);
    assert_eq!(m.org, Some(org([false, false], [9, 9, 9], 20, 3)));
}

#[test]
fn voice_executor_on_empty_current() {
    let mut m = membership(None, vec![]);
    Member::voice(&mut m);
    assert_eq!(m.org, None);
    assert!(m.alternatives.is_empty());
}

#[test]
fn exit_executor_swaps_with_first_cheapest() {
    let held = org([false, false], [0, 0, 0], 0, 0);
    let a = org([true, true], [0, 0, 1], 2, 0);
    let b = org([true, true], [0, 0, 1], 3, 0);
    let mut m = membership(Some(held.clone()), vec![a.clone(), b.clone()]);
    Member::exit(&mut m);
    assert_eq!(m.org, Some(a));
    assert_eq!(m.alternatives, vec![held, b]);
}
