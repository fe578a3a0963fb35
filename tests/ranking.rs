use ft_calc::{ConfigError, Crop, Evaluator, Farm};

fn get_test_crops() -> Vec<Crop> {
    vec![
        Crop::new(String::from("Lettuce"), 15, 10, 30),
        Crop::new(String::from("Leek"), 1250, 45, 1380),
    ]
}

#[test]
fn highest_sale_price_is_correct() {
    let test_crops = get_test_crops();
    let expected_highest = &test_crops[1];
    let actual_highest = Crop::get_highest_sale_price(&test_crops);
    assert_eq!(actual_highest, expected_highest);
}

#[test]
fn most_efficient_crop_is_selected() {
    let test_crops = get_test_crops();
    let most_efficient_crops = Crop::filter_by_efficiency(&test_crops, 20, 200);
    assert_eq!(most_efficient_crops.len(), 1);
    assert_eq!(most_efficient_crops[0].0, &test_crops[0]);
}

#[test]
fn small_budget_buys_only_lettuce() {
    let crops = get_test_crops();
    let r = Crop::filter_by_efficiency(&crops, 20, 200);
    assert_eq!(r.len(), 1);
    assert_eq!(r[0].0.name(), "Lettuce");
    assert_eq!(r[0].1, 8);
    assert_eq!(r[0].2, 40);
}

#[test]
fn larger_budget_ranks_lettuce_before_leek() {
    let crops = get_test_crops();
    let r = Crop::filter_by_efficiency(&crops, 50, 2000);
    assert_eq!(r.len(), 2);
    assert_eq!(r[0].0.name(), "Lettuce");
    assert_eq!(r[0].1, 80);
    assert_eq!(r[0].2, 400);
    assert_eq!(r[1].0.name(), "Leek");
    assert_eq!(r[1].1, 1);
    assert_eq!(r[1].2, 120);
}

#[test]
fn leek_sells_highest() {
    let crops = get_test_crops();
    let best = Crop::get_highest_sale_price(&crops);
    assert_eq!(best.name(), "Leek");
    assert_eq!(*best.sale_price(), 1380);
}

#[test]
fn first_of_equal_sale_prices_wins() {
    let crops = vec![
        Crop::new(String::from("Corn"), 5, 5, 50),
        Crop::new(String::from("Wheat"), 1, 1, 90),
        Crop::new(String::from("Rice"), 2, 2, 90),
    ];
    let best = Crop::get_highest_sale_price(&crops);
    assert_eq!(best.name(), "Wheat");
}

#[test]
fn single_crop_is_its_own_highest() {
    let crops = vec![Crop::new(String::from("Corn"), 5, 5, 0)];
    assert_eq!(Crop::get_highest_sale_price(&crops).name(), "Corn");
}

#[test]
fn no_crops_give_no_ranking() {
    let crops: Vec<Crop> = Vec::new();
    assert!(Crop::filter_by_efficiency(&crops, 100, 100).is_empty());
    assert!(Crop::filter_by_efficiency(&crops, 0, 0).is_empty());
}

#[test]
fn no_feasible_crop_gives_no_ranking() {
    let crops = get_test_crops();
    assert!(Crop::filter_by_efficiency(&crops, 5, 10000).is_empty());
    assert!(Crop::filter_by_efficiency(&crops, 100, 10).is_empty());
}

#[test]
fn zero_money_ranks_only_free_crops_with_nothing_bought() {
    let crops = vec![
        Crop::new(String::from("Weed"), 0, 3, 20),
        Crop::new(String::from("Lettuce"), 15, 10, 30),
        Crop::new(String::from("Slow"), 0, 30, 20),
    ];
    let r = Crop::filter_by_efficiency(&crops, 10, 0);
    assert_eq!(r.len(), 1);
    assert_eq!(r[0].0.name(), "Weed");
    assert_eq!(r[0].1, 0);
    assert_eq!(r[0].2, 0);
}

#[test]
fn unprofitable_crops_are_left_out() {
    let crops = vec![
        Crop::new(String::from("Loss"), 50, 1, 40),
        Crop::new(String::from("Even"), 50, 1, 60),
        Crop::new(String::from("Gain"), 50, 1, 61),
    ];
    let r = Crop::filter_by_efficiency(&crops, 10, 600);
    assert_eq!(r.len(), 1);
    assert_eq!(r[0].0.name(), "Gain");
    assert_eq!(r[0].1, 10);
    assert_eq!(r[0].2, 10);
}

#[test]
fn units_are_capped_at_two_hundred() {
    let crops = vec![Crop::new(String::from("Radish"), 0, 1, 11)];
    let r = Crop::filter_by_efficiency(&crops, 1, 1_000_000);
    assert_eq!(r.len(), 1);
    assert_eq!(r[0].1, 200);
    assert_eq!(r[0].2, 200);
}

#[test]
fn seed_price_equal_to_budget_buys_nothing() {
    let crops = vec![Crop::new(String::from("Melon"), 100, 1, 500)];
    let r = Crop::filter_by_efficiency(&crops, 1, 100);
    assert_eq!(r.len(), 1);
    assert_eq!(r[0].1, 0);
    assert_eq!(r[0].2, 0);
}

#[test]
fn ranking_is_by_profit_descending_with_ties_in_input_order() {
    let crops = vec![
        Crop::new(String::from("A"), 0, 1, 11),
        Crop::new(String::from("B"), 0, 1, 13),
        Crop::new(String::from("C"), 0, 1, 12),
        Crop::new(String::from("D"), 0, 1, 13),
    ];
    let r = Crop::filter_by_efficiency(&crops, 1, 100);
    let names: Vec<&str> = r.iter().map(|e| e.0.name()).collect();
    assert_eq!(names, vec!["B", "D", "C", "A"]);
    let profits: Vec<u64> = r.iter().map(|e| e.2).collect();
    assert_eq!(profits, vec![30, 30, 20, 10]);
    for w in r.windows(2) {
        assert!(w[0].2 >= w[1].2);
    }
}

#[test]
fn largest_values_do_not_overflow() {
    let crops = vec![Crop::new(String::from("Gold"), 0, u32::MAX, u32::MAX)];
    let r = Crop::filter_by_efficiency(&crops, u32::MAX, u32::MAX);
    assert_eq!(r.len(), 1);
    assert_eq!(r[0].1, 200);
    assert_eq!(r[0].2, (u32::MAX as u64 - 10) * 200);
    let costly = vec![Crop::new(String::from("Dear"), u32::MAX, 0, u32::MAX)];
    assert!(Crop::filter_by_efficiency(&costly, 0, u32::MAX).is_empty());
}

#[test]
fn zero_plow_cost_is_rejected() {
    assert_eq!(Evaluator::new(0, 200).err(), Some(ConfigError::ZeroPlowCost));
}

#[test]
fn custom_evaluator_uses_its_figures() {
    let e = Evaluator::new(5, 3).unwrap();
    assert_eq!(e.plow_cost(), 5);
    assert_eq!(e.max_units(), 3);
    let crops = vec![
        Crop::new(String::from("Bean"), 5, 1, 20),
        Crop::new(String::from("Pea"), 15, 1, 40),
    ];
    let r = e.rank(&crops, 1, 50);
    assert_eq!(r.len(), 2);
    assert_eq!(r[0].0.name(), "Pea");
    assert_eq!(r[0].1, 2);
    assert_eq!(r[0].2, 40);
    assert_eq!(r[1].0.name(), "Bean");
    assert_eq!(r[1].1, 3);
    assert_eq!(r[1].2, 30);
}

#[test]
fn standard_evaluator_matches_filter_by_efficiency() {
    let e = Evaluator::standard();
    assert_eq!(e.plow_cost(), 10);
    assert_eq!(e.max_units(), 200);
    let crops = get_test_crops();
    assert_eq!(e.rank(&crops, 50, 2000), Crop::filter_by_efficiency(&crops, 50, 2000));
}

#[test]
fn crop_getters_return_fields() {
    let c = Crop::new(String::from("Leek"), 1250, 45, 1380);
    assert_eq!(c.name(), "Leek");
    assert_eq!(*c.cost(), 1250);
    assert_eq!(*c.time(), 45);
    assert_eq!(*c.sale_price(), 1380);
}

#[test]
fn crops_differ_when_any_field_differs() {
    let a = Crop::new(String::from("Leek"), 1250, 45, 1380);
    assert_eq!(a, Crop::new(String::from("Leek"), 1250, 45, 1380));
    assert_ne!(a, Crop::new(String::from("Leak"), 1250, 45, 1380));
    assert_ne!(a, Crop::new(String::from("Leek"), 1251, 45, 1380));
    assert_ne!(a, Crop::new(String::from("Leek"), 1250, 46, 1380));
    assert_ne!(a, Crop::new(String::from("Leek"), 1250, 45, 1381));
}

#[test]
fn farm_keeps_its_crops() {
    let farm = Farm::new(get_test_crops());
    assert_eq!(farm.crops().len(), 2);
    assert_eq!(farm.crops()[1].name(), "Leek");
}
