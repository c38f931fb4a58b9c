use multitool::controller::crd::Slot;
use multitool::controller::weight::{full_promotion, single_backend, split_traffic, weight_config_for_slots};

#[test]
fn single_backend_full_weight() {
    let cfg = single_backend("my-app-red");
    assert_eq!(cfg.active_backend, "my-app-red");
    assert_eq!(cfg.active_weight, 100);
    assert!(cfg.canary.is_none());
}

#[test]
fn split_traffic_fifty_fifty() {
    let cfg = split_traffic("my-app-red", "my-app-black", 50);
    assert_eq!(cfg.active_backend, "my-app-red");
    assert_eq!(cfg.active_weight, 50);
    let canary = cfg.canary.unwrap();
    assert_eq!(canary.backend, "my-app-black");
    assert_eq!(canary.weight, 50);
}

#[test]
fn split_traffic_twenty_eighty() {
    let cfg = split_traffic("my-app-red", "my-app-black", 20);
    assert_eq!(cfg.active_weight, 80);
    assert_eq!(cfg.canary.unwrap().weight, 20);
}

#[test]
fn split_traffic_zero_is_single() {
    let cfg = split_traffic("my-app-red", "my-app-black", 0);
    assert_eq!(cfg.active_weight, 100);
    assert!(cfg.canary.is_none());
}

#[test]
fn split_traffic_hundred() {
    let cfg = split_traffic("my-app-red", "my-app-black", 100);
    assert_eq!(cfg.active_weight, 0);
    assert_eq!(cfg.canary.unwrap().weight, 100);
}

#[test]
fn full_promotion_config() {
    let cfg = full_promotion("my-app-black");
    assert_eq!(cfg.active_backend, "my-app-black");
    assert_eq!(cfg.active_weight, 100);
    assert!(cfg.canary.is_none());
}

#[test]
fn weight_config_for_slots_red_active() {
    let cfg = weight_config_for_slots("my-app", Slot::Red, 30);
    assert_eq!(cfg.active_backend, "my-app-red");
    assert_eq!(cfg.active_weight, 70);
    let canary = cfg.canary.unwrap();
    assert_eq!(canary.backend, "my-app-black");
    assert_eq!(canary.weight, 30);
}

#[test]
fn weight_config_for_slots_black_active() {
    let cfg = weight_config_for_slots("my-app", Slot::Black, 10);
    assert_eq!(cfg.active_backend, "my-app-black");
    assert_eq!(cfg.active_weight, 90);
    let canary = cfg.canary.unwrap();
    assert_eq!(canary.backend, "my-app-red");
    assert_eq!(canary.weight, 10);
}

#[test]
fn weight_config_for_slots_zero_is_single() {
    let cfg = weight_config_for_slots("my-app", Slot::Red, 0);
    assert_eq!(cfg.active_weight, 100);
    assert!(cfg.canary.is_none());
}

#[test]
fn split_traffic_over_hundred_is_capped() {
    let cfg = split_traffic("a", "b", 250);
    assert_eq!(cfg.active_weight, 0);
    assert_eq!(cfg.canary.unwrap().weight, 100);
}
