use node_service::{ChainSelector, ChainTip};

#[test]
fn no_tip_is_best_when_none_is_known() {
    let selector = ChainSelector::longest_chain();
    assert_eq!(selector.best_tip(&vec![]), None);
}

#[test]
fn the_highest_tip_is_best() {
    let selector = ChainSelector::longest_chain();
    let tips = vec![
        ChainTip { id: 1, number: 7 },
        ChainTip { id: 2, number: 9 },
        ChainTip { id: 3, number: 8 },
    ];
    assert_eq!(selector.best_tip(&tips), Some(ChainTip { id: 2, number: 9 }));
}

#[test]
fn among_equally_high_tips_the_first_is_best() {
    let selector = ChainSelector::longest_chain();
    let tips = vec![
        ChainTip { id: 1, number: 3 },
        ChainTip { id: 2, number: 9 },
        ChainTip { id: 3, number: 9 },
        ChainTip { id: 4, number: 9 },
    ];
    assert_eq!(selector.best_tip(&tips), Some(ChainTip { id: 2, number: 9 }));
}

#[test]
fn a_single_tip_is_best() {
    let tips = vec![ChainTip { id: 5, number: 0 }];
    assert_eq!(ChainSelector::LongestChain.best_tip(&tips), Some(ChainTip { id: 5, number: 0 }));
}

#[test]
fn the_rule_picks_the_same_tip_every_time() {
    let tips = vec![
        ChainTip { id: 1, number: 4 },
        ChainTip { id: 2, number: 4 },
        ChainTip { id: 3, number: 2 },
    ];
    let first = ChainSelector::LongestChain.best_tip(&tips);
    let second = ChainSelector::LongestChain.best_tip(&tips);
    assert_eq!(first, second);
    assert_eq!(first, Some(ChainTip { id: 1, number: 4 }));
}
