use kg_rust::status::OrderStatus;

#[test]
fn labels_read_back() {
    for status in [
        OrderStatus::PaymentPending,
        OrderStatus::Paid,
        OrderStatus::Completed,
        OrderStatus::PaymentFailed,
        OrderStatus::Cancelled,
    ] {
        assert_eq!(OrderStatus::from_label(status.as_str()), Some(status));
    }
    assert_eq!(OrderStatus::from_label("PAID"), None);
    assert_eq!(OrderStatus::from_label(""), None);
}

const ALL: [OrderStatus; 5] = [
    OrderStatus::PaymentPending,
    OrderStatus::Paid,
    OrderStatus::Completed,
    OrderStatus::PaymentFailed,
    OrderStatus::Cancelled,
];

#[test]
fn labels_as_stored() {
    assert_eq!(OrderStatus::PaymentPending.as_str(), "payment_pending");
    assert_eq!(OrderStatus::Paid.as_str(), "paid");
    assert_eq!(OrderStatus::Completed.as_str(), "completed");
    assert_eq!(OrderStatus::PaymentFailed.as_str(), "payment_failed");
    assert_eq!(OrderStatus::Cancelled.as_str(), "cancelled");
}

#[test]
fn terminal_statuses() {
    let terminal: Vec<OrderStatus> = ALL.iter().copied().filter(|s| s.is_terminal()).collect();
    assert_eq!(
        terminal,
        vec![OrderStatus::Completed, OrderStatus::PaymentFailed, OrderStatus::Cancelled]
    );
}

#[test]
fn legal_transitions() {
    let mut legal = Vec::new();
    for from in ALL {
        for to in ALL {
            if from.can_become(to) {
                legal.push((from, to));
            }
        }
    }
    assert_eq!(
        legal,
        vec![
            (OrderStatus::PaymentPending, OrderStatus::Paid),
            (OrderStatus::PaymentPending, OrderStatus::PaymentFailed),
            (OrderStatus::Paid, OrderStatus::Completed),
            (OrderStatus::Paid, OrderStatus::Cancelled),
        ]
    );
}

#[test]
fn nothing_leaves_a_terminal_status() {
    for from in ALL {
        for to in ALL {
            if from.is_terminal() {
                assert!(!from.can_become(to));
            }
            // No transition has a way back.
            assert!(!(from.can_become(to) && to.can_become(from)));
        }
    }
}
