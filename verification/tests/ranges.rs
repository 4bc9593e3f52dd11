use available_range::available_range::{first_available, AvailableRange, AvailableRangeKey};
use available_range::error::RpcError;
use available_range::string_set::StringSet;
use available_range::watermarks::Watermarks;

fn key(type_: &str, field: Option<&str>, filters: Option<&[&str]>) -> AvailableRangeKey {
    AvailableRangeKey {
        type_: type_.to_string(),
        field: field.map(|f| f.to_string()),
        filters: filters.map(|v| v.iter().map(|s| s.to_string()).collect()),
    }
}

fn watermarks(entries: &[(&str, u64)]) -> Watermarks {
    let mut w = Watermarks::new();
    for (pipeline, checkpoint) in entries {
        w.set_lo_watermark(pipeline.to_string(), *checkpoint);
    }
    w
}

/// The first checkpoint, or the name of the pipeline that has no watermark.
fn first(w: &Watermarks, key: AvailableRangeKey) -> Result<u64, String> {
    match AvailableRange::from_watermarks(w, &"scope".to_string(), key) {
        Ok(range) => {
            assert_eq!(range.scope, "scope");
            Ok(range.first)
        }
        Err(RpcError::NoWatermark { pipeline }) => Err(pipeline),
        Err(RpcError::GraphQl(e)) => panic!("{}", e.message),
    }
}

#[test]
fn watermarks_are_looked_up_by_name() {
    let mut w = watermarks(&[("a", 1), ("b", 2)]);
    assert_eq!(w.pipeline_lo_watermark("a").unwrap(), 1);
    assert_eq!(w.pipeline_lo_watermark("b").unwrap(), 2);
    w.set_lo_watermark("a".to_string(), u64::MAX);
    assert_eq!(w.pipeline_lo_watermark("a").unwrap(), u64::MAX);
    assert_eq!(w.pipeline_lo_watermark("b").unwrap(), 2);
    assert!(matches!(
        w.pipeline_lo_watermark("c"),
        Err(RpcError::NoWatermark { pipeline }) if pipeline == "c"
    ));
}

#[test]
fn range_starts_at_the_highest_lower_watermark() {
    let w = watermarks(&[
        ("cp_sequence_numbers", 5),
        ("tx_digests", 40),
        ("tx_kinds", 7),
        ("tx_calls", 90),
        ("consistent", 1000),
    ]);
    let transactions = |filters: &[&str]| key("Query", Some("transactions"), Some(filters));
    assert_eq!(first(&w, transactions(&[])), Ok(40));
    assert_eq!(first(&w, transactions(&["kind"])), Ok(40));
    assert_eq!(first(&w, transactions(&["kind", "function"])), Ok(90));
    assert_eq!(first(&w, key("Query", Some("transactions"), None)), Ok(40));
    assert_eq!(first(&w, key("Epoch", Some("checkpoints"), None)), Ok(5));
    assert_eq!(first(&w, key("Address", Some("balance"), None)), Ok(1000));
}

#[test]
fn first_missing_watermark_is_named() {
    let scan = || key("Query", Some("transactions"), Some(&["kind"]));
    let w = watermarks(&[]);
    assert_eq!(first(&w, scan()), Err("cp_sequence_numbers".to_string()));
    let w = watermarks(&[("cp_sequence_numbers", 1)]);
    assert_eq!(first(&w, scan()), Err("tx_digests".to_string()));
    let w = watermarks(&[("cp_sequence_numbers", 1), ("tx_digests", 1)]);
    assert_eq!(first(&w, scan()), Err("tx_kinds".to_string()));
    let w = watermarks(&[("tx_kinds", 3), ("tx_digests", 1)]);
    assert_eq!(first(&w, scan()), Err("cp_sequence_numbers".to_string()));
}

#[test]
fn without_pipelines_the_range_has_no_limit() {
    for w in [watermarks(&[]), watermarks(&[("consistent", 9)])] {
        assert_eq!(first(&w, key("Query", None, None)), Ok(0));
        assert_eq!(first(&w, key("UnknownType", Some("field"), None)), Ok(0));
        assert_eq!(first_available(&w, &StringSet::new()).unwrap(), 0);
    }
}

#[test]
fn order_and_repetition_of_filters_make_no_difference() {
    let w = watermarks(&[("tx_digests", 3), ("ev_emit_mod", 8), ("ev_struct_inst", 20)]);
    let events = |filters: &[&str]| first(&w, key("Query", Some("events"), Some(filters)));
    assert_eq!(events(&["module", "sender"]), Ok(8));
    assert_eq!(events(&["sender", "module", "sender", "module"]), Ok(8));
    assert_eq!(events(&["sender"]), Ok(20));
}

#[test]
fn pruning_moves_the_start_up() {
    let mut w = watermarks(&[("tx_digests", 3), ("ev_struct_inst", 20), ("tx_kinds", 500)]);
    let events = || key("Event", Some("sender"), None);
    assert_eq!(first(&w, events()), Ok(20));
    w.set_lo_watermark("tx_digests".to_string(), 19);
    assert_eq!(first(&w, events()), Ok(20));
    w.set_lo_watermark("tx_digests".to_string(), 21);
    assert_eq!(first(&w, events()), Ok(21));
}

#[test]
fn ends_are_looked_up_in_the_scope() {
    let range = AvailableRange {
        scope: "viewed at 50".to_string(),
        first: 12,
    };
    let lookup = |scope: String, n: Option<u64>| Some(format!("{scope}: {n:?}"));
    assert_eq!(
        range.first(lookup).unwrap(),
        Some("viewed at 50: Some(12)".to_string())
    );
    assert_eq!(
        range.last(lookup).unwrap(),
        Some("viewed at 50: None".to_string())
    );
    let nothing = |_: String, _: Option<u64>| -> Option<u64> { None };
    assert_eq!(range.clone().first(nothing).unwrap(), None);
    assert_eq!(range.clone().last(nothing).unwrap(), None);
    assert_eq!(range.clone().first, 12);
}

#[test]
fn keys_with_the_same_pipelines_come_out_alike() {
    let scan = |filters: &[&str]| key("Query", Some("transactions"), Some(filters));
    let owned = || key("Address", Some("transactions"), None);
    let mut w = watermarks(&[("cp_sequence_numbers", 2), ("tx_digests", 6)]);
    assert_eq!(first(&w, owned()), Err("tx_affected_addresses".to_string()));
    assert_eq!(first(&w, scan(&["sentAddress"])), first(&w, owned()));
    w.set_lo_watermark("tx_affected_addresses".to_string(), 11);
    assert_eq!(first(&w, owned()), Ok(11));
    assert_eq!(first(&w, scan(&["sentAddress"])), Ok(11));
    assert_eq!(AvailableRange::from_watermarks(&w, &8u8, owned()).unwrap().first, 11);
}

#[test]
fn fewer_pipelines_have_a_range_where_more_have_one() {
    let w = watermarks(&[("cp_sequence_numbers", 2), ("tx_digests", 6), ("tx_calls", 9)]);
    let scan = |filters: &[&str]| key("Query", Some("transactions"), Some(filters));
    assert_eq!(first(&w, scan(&["function"])), Ok(9));
    assert_eq!(first(&w, scan(&[])), Ok(6));
}

#[test]
fn watermarks_of_other_pipelines_do_not_count() {
    let scan = || key("Query", Some("transactions"), None);
    for other in [watermarks(&[]), watermarks(&[("consistent", 99), ("a", 7)])] {
        assert_eq!(first(&other, scan()), Err("cp_sequence_numbers".to_string()));
    }
    let mut w = watermarks(&[("cp_sequence_numbers", 2), ("tx_digests", 6)]);
    assert_eq!(first(&w, scan()), Ok(6));
    w.set_lo_watermark("tx_calls".to_string(), 500);
    assert_eq!(first(&w, scan()), Ok(6));
}
