use custom_path::builder::{CustomPathBuilder, PlannerRoot, RangeTableEntry, RelationInfo};
use custom_path::flags::{FlagSet, Flags};
use custom_path::order_by::{OrderByStyle, PathKey};
use custom_path::restriction::select_restrictions;
use custom_path::rounding::round_millis_to_i32;
use custom_path::sort_direction::{SortDirection, SORT_ASCENDING, SORT_DESCENDING};

fn builder_with(limit_hint_millis: i64, base: Vec<usize>, join: Vec<usize>) -> CustomPathBuilder {
    CustomPathBuilder::new(
        PlannerRoot { limit_hint_millis },
        RelationInfo {
            handle: 7,
            target: 9,
            base_restrictions: base,
            join_restrictions: join,
        },
        1,
        RangeTableEntry { handle: 3 },
    )
}

#[test]
fn direction_round_trips_for_recognized_codes() {
    assert_eq!(
        SortDirection::from_native(SORT_ASCENDING).to_native(),
        SORT_ASCENDING
    );
    assert_eq!(
        SortDirection::from_native(SORT_DESCENDING).to_native(),
        SORT_DESCENDING
    );
    assert_eq!(
        SortDirection::from_native(SortDirection::Asc.to_native()),
        SortDirection::Asc
    );
    assert_eq!(
        SortDirection::from_native(SortDirection::Desc.to_native()),
        SortDirection::Desc
    );
}

#[test]
fn direction_labels_and_default() {
    assert_eq!(SortDirection::Asc.as_str(), "asc");
    assert_eq!(SortDirection::Desc.as_str(), "desc");
    assert_eq!(SortDirection::default(), SortDirection::Asc);
}

#[test]
fn style_exposes_descriptor_and_direction() {
    let asc_key = PathKey {
        strategy: SORT_ASCENDING,
        sort_handle: 11,
    };
    let desc_key = PathKey {
        strategy: SORT_DESCENDING,
        sort_handle: 12,
    };
    let score = OrderByStyle::Score(asc_key);
    let field = OrderByStyle::Field(desc_key, String::from("title"));
    assert_eq!(score.pathkey(), asc_key);
    assert_eq!(field.pathkey(), desc_key);
    assert_eq!(score.direction(), SortDirection::Asc);
    assert_eq!(field.direction(), SortDirection::Desc);
}

#[test]
fn flag_set_insert_contains_mask() {
    let s = FlagSet::empty();
    assert!(!s.contains(Flags::BackwardScan));
    assert_eq!(s.mask(), 0);
    let s = s.insert(Flags::BackwardScan);
    assert!(s.contains(Flags::BackwardScan));
    assert_eq!(s.mask(), 0x0001);
    assert_eq!(FlagSet::empty().insert(Flags::MarkRestore).mask(), 0x0002);
    assert_eq!(FlagSet::empty().insert(Flags::Projection).mask(), 0x0004);
}

#[test]
fn flag_mask_is_or_of_distinct_bits_independent_of_order() {
    let first = builder_with(0, Vec::new(), Vec::new())
        .set_flag(Flags::BackwardScan)
        .set_flag(Flags::MarkRestore)
        .build();
    let second = builder_with(0, Vec::new(), Vec::new())
        .set_flag(Flags::MarkRestore)
        .set_flag(Flags::BackwardScan)
        .set_flag(Flags::MarkRestore)
        .build();
    assert_eq!(first.flags_mask, 0x0001 | 0x0002);
    assert_eq!(second.flags_mask, first.flags_mask);
}

#[test]
fn all_flags_give_full_mask() {
    let built = builder_with(0, Vec::new(), Vec::new())
        .set_flag(Flags::BackwardScan)
        .set_flag(Flags::MarkRestore)
        .set_flag(Flags::Projection)
        .build();
    assert_eq!(built.flags_mask, 0x0007);
}

#[test]
fn cleared_flags_build_to_zero_mask() {
    let built = builder_with(0, Vec::new(), Vec::new())
        .set_flag(Flags::BackwardScan)
        .set_flag(Flags::Projection)
        .clear_flags()
        .build();
    assert_eq!(built.flags_mask, 0);
}

#[test]
fn add_path_key_none_is_a_no_op() {
    let built = builder_with(0, Vec::new(), Vec::new())
        .add_path_key(&None)
        .build();
    assert!(built.sort_keys.is_empty());
}

#[test]
fn add_path_key_appends_the_styles_descriptor() {
    let first = PathKey {
        strategy: SORT_ASCENDING,
        sort_handle: 21,
    };
    let second = PathKey {
        strategy: SORT_DESCENDING,
        sort_handle: 22,
    };
    let built = builder_with(0, Vec::new(), Vec::new())
        .add_path_key(&Some(OrderByStyle::Score(first)))
        .add_path_key(&None)
        .add_path_key(&Some(OrderByStyle::Field(second, String::from("rating"))))
        .build();
    assert_eq!(built.sort_keys, vec![first, second]);
}

#[test]
fn restriction_selector_prefers_base() {
    let base: Vec<usize> = vec![1, 2];
    let join: Vec<usize> = vec![3];
    let empty: Vec<usize> = Vec::new();
    assert_eq!(select_restrictions(&empty, &empty), empty);
    assert_eq!(select_restrictions(&base, &empty), base);
    assert_eq!(select_restrictions(&empty, &join), join);
    assert_eq!(select_restrictions(&base, &join), base);
}

#[test]
fn restrict_info_reads_the_seeded_relation() {
    let with_base = builder_with(0, vec![4, 5], vec![6]);
    assert_eq!(with_base.restrict_info(), vec![4, 5]);
    let join_only = builder_with(0, Vec::new(), vec![6]);
    assert_eq!(join_only.restrict_info(), vec![6]);
    let neither = builder_with(0, Vec::new(), Vec::new());
    assert_eq!(neither.restrict_info(), Vec::<usize>::new());
}

#[test]
fn limit_rounds_to_nearest_with_ties_away_from_zero() {
    assert_eq!(builder_with(10_400, Vec::new(), Vec::new()).limit(), 10);
    assert_eq!(builder_with(10_500, Vec::new(), Vec::new()).limit(), 11);
    assert_eq!(builder_with(0, Vec::new(), Vec::new()).limit(), 0);
    assert_eq!(builder_with(-1_000, Vec::new(), Vec::new()).limit(), -1);
    assert_eq!(builder_with(-10_500, Vec::new(), Vec::new()).limit(), -11);
    assert_eq!(builder_with(499, Vec::new(), Vec::new()).limit(), 0);
    assert_eq!(builder_with(500, Vec::new(), Vec::new()).limit(), 1);
}

#[test]
fn limit_saturates_at_the_i32_bounds() {
    assert_eq!(round_millis_to_i32(i64::MAX), i32::MAX);
    assert_eq!(round_millis_to_i32(i64::MIN), i32::MIN);
    assert_eq!(round_millis_to_i32(2_147_483_647_000), i32::MAX);
    assert_eq!(round_millis_to_i32(-2_147_483_648_000), i32::MIN);
}

#[test]
fn seeded_builder_has_the_documented_defaults() {
    let built = builder_with(0, Vec::new(), Vec::new()).build();
    assert_eq!(built.rows_millis, 0);
    assert_eq!(built.startup_cost_millis, 0);
    assert_eq!(built.total_cost_millis, 0);
    assert_eq!(built.flags_mask, 0);
    assert!(built.sort_keys.is_empty());
    assert!(built.sub_paths.is_empty());
    assert!(built.custom_private.is_empty());
    assert_eq!(built.parent, 7);
    assert_eq!(built.target, 9);
}

#[test]
fn end_to_end_configured_build() {
    let desc = PathKey {
        strategy: SORT_DESCENDING,
        sort_handle: 30,
    };
    let built = builder_with(0, Vec::new(), Vec::new())
        .set_rows(42_000)
        .set_startup_cost(1_500)
        .set_total_cost(9_250)
        .set_flag(Flags::Projection)
        .add_path_key(&Some(OrderByStyle::Field(desc, String::from("title"))))
        .build();
    assert_eq!(built.rows_millis, 42_000);
    assert_eq!(built.startup_cost_millis, 1_500);
    assert_eq!(built.total_cost_millis, 9_250);
    assert_eq!(built.flags_mask, 0x0004);
    assert_eq!(built.sort_keys, vec![desc]);
    assert!(built.sub_paths.is_empty());
}

#[test]
fn scalar_setters_last_write_wins() {
    let built = builder_with(0, Vec::new(), Vec::new())
        .set_rows(1_000)
        .set_rows(2_000)
        .set_startup_cost(-500)
        .set_startup_cost(750)
        .set_total_cost(3_000)
        .set_total_cost(4_000)
        .build();
    assert_eq!(built.rows_millis, 2_000);
    assert_eq!(built.startup_cost_millis, 750);
    assert_eq!(built.total_cost_millis, 4_000);
}

#[test]
fn sub_paths_keep_insertion_order() {
    let built = builder_with(0, Vec::new(), Vec::new())
        .add_custom_path(40)
        .add_custom_path(41)
        .add_custom_path(42)
        .build();
    assert_eq!(built.sub_paths, vec![40, 41, 42]);
}

#[test]
fn private_payload_accumulates_and_transfers() {
    let mut b = builder_with(0, Vec::new(), Vec::new());
    assert!(b.custom_private().is_empty());
    b.custom_private().push(90);
    b.custom_private().push(91);
    assert_eq!(b.custom_private(), &vec![90, 91]);
    let built = b.build();
    assert_eq!(built.custom_private, vec![90, 91]);
}

#[test]
fn context_accessors_expose_the_seeding() {
    let b = builder_with(10_400, vec![4], vec![6]);
    assert_eq!(b.args().root().limit_hint_millis, 10_400);
    assert_eq!(b.args().rel().handle, 7);
    assert_eq!(b.args().rel().base_restrictions, vec![4]);
    assert_eq!(b.args().rel().join_restrictions, vec![6]);
    assert_eq!(b.args().rte().handle, 3);
    assert_eq!(b.args().rti, 1);
    assert_eq!(b.path_target(), 9);
}
