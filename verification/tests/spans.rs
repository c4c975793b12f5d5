use tracing_etw::activity::{activity_id, mark_activity};
use tracing_etw::event::EventSpan;
use tracing_etw::layer::EtwLayer;
use tracing_etw::names::name_at_most;
use tracing_etw::slots::name_order;
use tracing_etw::span::{SlotLabels, SpanAttributes, SpanData, SpanEdge, SpanLookup};

const SPAN: u64 = 0x1122334455667788;
const SPAN_ACTIVITY: [u8; 16] = [
    1, 0, 0, 0, 0, 0, 0, 0, 0x88, 0x77, 0x66, 0x55, 0x44, 0x33, 0x22, 0x11,
];
const NO_PARENT: SpanAttributes = SpanAttributes {
    is_contextual: true,
    parent: None,
};

fn layer() -> EtwLayer {
    EtwLayer::new("p")
}

fn new_span(labels: SlotLabels, id: u64, names: Vec<&'static str>) -> SpanData<u32> {
    layer()
        .on_new_span(labels, id, NO_PARENT, Some(names))
        .unwrap()
}

#[test]
fn activity_holds_the_span_in_its_last_bytes() {
    assert_eq!(activity_id(SPAN), SPAN_ACTIVITY);
    assert_eq!(activity_id(0), [0; 16]);
    assert_eq!(activity_id(1), [1, 0, 0, 0, 0, 0, 0, 0, 1, 0, 0, 0, 0, 0, 0, 0]);
    let top = activity_id(u64::MAX);
    assert_eq!(top[..8], [1, 0, 0, 0, 0, 0, 0, 0]);
    assert_eq!(top[8..], [0xff; 8]);
    assert_eq!(mark_activity(0), [1, 0, 0, 0, 0, 0, 0, 0, 0, 0, 0, 0, 0, 0, 0, 0]);
}

#[test]
fn activities_differ_where_spans_do() {
    let spans = [0u64, 1, 2, 255, 256, 1 << 32, u64::MAX];
    for a in spans {
        for b in spans {
            assert_eq!(activity_id(a) == activity_id(b), a == b);
        }
        let mut half = [0u8; 8];
        half.copy_from_slice(&activity_id(a)[8..]);
        assert_eq!(u64::from_le_bytes(half), a);
    }
}

#[test]
fn event_is_written_under_its_span() {
    let inside = EventSpan {
        id: SPAN,
        parent: Some(3),
    };
    let writes = layer().on_event(Some(&"provider"), 99u32, Some(inside), "event", 5);
    assert!(writes.common_schema.is_none());
    let record = writes.normal;
    assert_eq!(*record.provider, "provider");
    assert_eq!(record.timestamp, 99);
    assert_eq!(record.activity_id, SPAN_ACTIVITY);
    assert_eq!(record.related_activity_id, activity_id(3));
    assert_eq!(record.name, "event");
    assert_eq!(record.level, 5);
    assert_eq!(record.keyword, 1);
}

#[test]
fn common_schema_event_is_written_beside_the_normal_one() {
    let layer = layer().with_common_schema_events();
    let inside = EventSpan {
        id: SPAN,
        parent: Some(3),
    };
    let writes = layer.on_event(Some(&"provider"), 99u32, Some(inside), "event", 5);
    for record in [writes.normal, writes.common_schema.unwrap()] {
        assert_eq!(*record.provider, "provider");
        assert_eq!(record.timestamp, 99);
        assert_eq!(record.activity_id, SPAN_ACTIVITY);
        assert_eq!(record.related_activity_id, activity_id(3));
        assert_eq!(record.name, "event");
        assert_eq!(record.level, 5);
        assert_eq!(record.keyword, 1);
    }
}

#[test]
fn event_without_span_has_no_activity() {
    let record = layer().on_event(Some(&0u8), 0u32, None, "e", 1).normal;
    assert_eq!(record.activity_id, [0; 16]);
    assert_eq!(record.related_activity_id, [0; 16]);
    let alone = EventSpan { id: 4, parent: None };
    let record = layer().on_event(Some(&0u8), 0u32, Some(alone), "e", 1).normal;
    assert_eq!(record.activity_id, activity_id(4));
    assert_eq!(record.related_activity_id, [0; 16]);
}

#[test]
fn span_that_is_not_found_keeps_nothing() {
    let kept: Option<SpanData<u32>> = layer().on_new_span(SlotLabels::Named, 1, NO_PARENT, None);
    assert!(kept.is_none());
    let kept: Option<SpanData<u32>> = layer().on_new_span(SlotLabels::Unnamed, 1, NO_PARENT, None);
    assert!(kept.is_none());
}

#[test]
fn unnamed_slots_stand_in_declared_order() {
    let data = new_span(SlotLabels::Unnamed, SPAN, vec!["b", "a", "c"]);
    assert_eq!(data.fields, ["", "", ""]);
    assert_eq!(data.values, [None, None, None]);
    assert_eq!(data.indexes, [0, 1, 2]);
    assert_eq!(data.activity_id, SPAN_ACTIVITY);
    assert_eq!(data.related_activity_id, [0; 16]);
}

#[test]
fn unnamed_slots_reach_their_limit() {
    let data = new_span(SlotLabels::Unnamed, 1, vec!["x"; 33]);
    assert_eq!(data.fields, vec![""; 33]);
    assert_eq!(data.values.len(), 33);
    let expected: Vec<u8> = (0..33).collect();
    assert_eq!(data.indexes, expected);
    let data = new_span(SlotLabels::Unnamed, 1, vec![]);
    assert!(data.fields.is_empty() && data.values.is_empty() && data.indexes.is_empty());
}

#[test]
fn named_slots_are_indexed_by_name() {
    let data = new_span(SlotLabels::Named, SPAN, vec!["message", "id", "name", "ids"]);
    assert_eq!(data.fields, ["message", "id", "name", "ids"]);
    assert_eq!(data.values, [None, None, None, None]);
    assert_eq!(data.indexes, [1, 3, 0, 2]);
    assert_eq!(data.activity_id, SPAN_ACTIVITY);
    assert_eq!(data.related_activity_id, [0; 16]);
}

#[test]
fn equal_names_keep_declared_order() {
    assert_eq!(name_order(&vec!["b", "a", "b", "a"]), [1, 3, 0, 2]);
    assert_eq!(name_order(&vec!["x"; 5]), [0, 1, 2, 3, 4]);
    assert!(name_order(&vec![]).is_empty());
}

#[test]
fn name_order_is_the_stable_sort_of_the_slots() {
    let sets: Vec<Vec<&'static str>> = vec![
        vec!["z", "y", "x", "w", "a", "b", "c"],
        vec!["\u{e9}", "e", "z", "", "\u{ffff}", "\u{10000}", "E"],
        vec!["aa", "a", "aaa", "", "a", "ab"],
    ];
    for names in sets {
        let mut expected: Vec<u8> = (0..names.len() as u8).collect();
        expected.sort_by_key(|slot| names[*slot as usize]);
        assert_eq!(name_order(&names), expected);
    }
}

#[test]
fn slot_numbers_start_over_after_a_byte() {
    let mut names: Vec<&'static str> = vec!["m"; 300];
    names[0] = "z";
    names[299] = "a";
    let mut expected: Vec<u8> = (0..300usize).map(|i| i as u8).collect();
    expected.sort_by_key(|slot| names[*slot as usize]);
    assert_eq!(name_order(&names), expected);
    assert_eq!(expected[298..], [0, 0]);
}

#[test]
fn each_slot_is_indexed_once() {
    let names: Vec<&'static str> = vec!["q"; 256];
    let expected: Vec<u8> = (0..=255).collect();
    assert_eq!(name_order(&names), expected);
}

#[test]
fn names_are_ordered_by_their_bytes() {
    let names = ["", "A", "Z", "a", "aa", "ab", "b", "\u{e9}", "\u{ffff}", "\u{10000}"];
    for a in names {
        for b in names {
            assert_eq!(name_at_most(a, b), a <= b);
        }
    }
}

#[test]
fn related_span_needs_a_contextual_named_parent() {
    let related = |is_contextual: bool, parent: Option<u64>| {
        let data: SpanData<u32> = layer()
            .on_new_span(
                SlotLabels::Named,
                1,
                SpanAttributes {
                    is_contextual,
                    parent,
                },
                Some(vec![]),
            )
            .unwrap();
        data.related_activity_id
    };
    assert_eq!(related(true, Some(SPAN)), SPAN_ACTIVITY);
    assert_eq!(related(true, Some(0)), [0; 16]);
    assert_eq!(related(true, None), [0; 16]);
    assert_eq!(related(false, Some(SPAN)), [0; 16]);
    assert_eq!(related(false, None), [0; 16]);
}

#[test]
fn data_without_activity_can_be_made() {
    let data: SpanData<u32> = SpanData::unnamed(2);
    assert_eq!(data.fields, ["", ""]);
    assert_eq!(data.indexes, [0, 1]);
    assert_eq!(data.activity_id, [0; 16]);
    assert_eq!(data.related_activity_id, [0; 16]);
    let data: SpanData<u32> = SpanData::named(vec!["b", "a"]);
    assert_eq!(data.indexes, [1, 0]);
    assert_eq!(data.activity_id, [0; 16]);
    assert_eq!(data.related_activity_id, [0; 16]);
}

#[test]
fn start_and_stop_agree() {
    let layer = layer();
    let data = new_span(SlotLabels::Named, SPAN, vec!["f"]);
    let found = || SpanLookup {
        data: Some(&data),
        level: 4,
    };
    let start = layer.on_enter(Some(&8u8), 10u32, Some(found())).unwrap();
    let stop = layer.on_exit(Some(&8u8), 20u32, Some(found())).unwrap();
    assert_eq!(start.edge, SpanEdge::Start);
    assert_eq!(stop.edge, SpanEdge::Stop);
    assert_eq!((start.timestamp, stop.timestamp), (10, 20));
    for record in [start, stop] {
        assert_eq!(*record.provider, 8);
        assert_eq!(record.data.activity_id, SPAN_ACTIVITY);
        assert_eq!(record.data.fields, ["f"]);
        assert_eq!(record.data.values, [None]);
        assert_eq!(record.level, 4);
        assert_eq!(record.keyword, 1);
        assert_eq!(record.event_tag, 0);
    }
}

#[test]
fn unknown_spans_write_nothing() {
    let layer = layer();
    assert!(layer.on_enter::<u8, u32, u32>(None, 0, None).is_none());
    assert!(layer.on_exit::<u8, u32, u32>(None, 0, None).is_none());
    let bare = || SpanLookup::<u32> {
        data: None,
        level: 1,
    };
    assert!(layer.on_enter::<u8, u32, u32>(None, 0, Some(bare())).is_none());
    assert!(layer.on_exit(Some(&1u8), 0u32, Some(bare())).is_none());
    assert!(layer.on_record::<u32>(None).is_none());
    assert!(layer.on_record::<u32>(Some(None)).is_none());
}

#[test]
fn recording_keeps_activities_and_names() {
    let layer = layer();
    let mut data = new_span(SlotLabels::Named, SPAN, vec!["b", "a"]);
    let slots = data.slots_mut();
    assert_eq!(slots.fields, ["b", "a"]);
    slots.values[0] = Some(17);
    let slots = layer.on_record(Some(Some(&mut data))).unwrap();
    assert_eq!(slots.fields, ["b", "a"]);
    assert_eq!(slots.values, [Some(17), None]);
    assert_eq!(slots.indexes, [1, 0]);
    slots.values[1] = Some(18);
    slots.indexes[0] = 0;
    assert_eq!(data.fields, ["b", "a"]);
    assert_eq!(data.values, [Some(17), Some(18)]);
    assert_eq!(data.indexes, [0, 0]);
    assert_eq!((data.values.len(), data.indexes.len()), (2, 2));
    assert_eq!(data.activity_id, SPAN_ACTIVITY);
    assert_eq!(data.related_activity_id, [0; 16]);
}

#[test]
fn events_share_the_activity_of_their_span() {
    let layer = layer();
    let data = new_span(SlotLabels::Unnamed, 6, vec!["f"]);
    let found = SpanLookup {
        data: Some(&data),
        level: 1,
    };
    let start = layer.on_enter(Some(&0u8), 0u32, Some(found)).unwrap();
    let inside = EventSpan { id: 6, parent: None };
    let event = layer.on_event(Some(&0u8), 0u32, Some(inside), "e", 1).normal;
    assert_eq!(event.activity_id, start.data.activity_id);
    let below = EventSpan {
        id: 7,
        parent: Some(6),
    };
    let event = layer.on_event(Some(&0u8), 0u32, Some(below), "e", 1).normal;
    assert_eq!(event.related_activity_id, start.data.activity_id);
}
