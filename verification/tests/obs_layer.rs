use std::cell::Cell;

use obs_twitch_dashboard::obs::data::Data;
use obs_twitch_dashboard::obs::mem::OBSBox;
use obs_twitch_dashboard::obs::output::Output;
use obs_twitch_dashboard::obs::properties::{self, Properties, DEFER_UPDATE};
use obs_twitch_dashboard::obs::service::Service;
use obs_twitch_dashboard::obs::sys::{
    obs_data_t, obs_output_t, obs_service_t, obs_source_t, obs_text_type,
};
use obs_twitch_dashboard::obs::{enum_outputs, enum_sources};
use obs_twitch_dashboard::obs_ffi::{api_version, obs_api_version, obs_semver};

#[test]
fn lib_it_works() {}

#[test]
fn it_works() {}

#[test]
fn obs_it_works() {}

#[test]
fn obsbox_calls_destructor() {
    let dummy_value: usize = 0;
    let mut destructor_call_count: usize = 0;
    {
        let destructor = |_| destructor_call_count = destructor_call_count + 1;
        OBSBox::new(&dummy_value, destructor).destroy();
    }
    assert_eq!(destructor_call_count, 1);
}

#[test]
fn obsbox_doesnt_call_destructor_if_moved() {
    let dummy_value: usize = 0;
    let mut destructor_call_count: usize = 0;
    {
        let destructor = |_| destructor_call_count = destructor_call_count + 1;
        OBSBox::new(&dummy_value, destructor).into_raw();
    }
    assert_eq!(destructor_call_count, 0);
}

#[test]
fn obsbox_into_raw_gives_the_item_back() {
    let calls = Cell::new(0u32);
    let item = OBSBox::new(7u64, |_| calls.set(calls.get() + 1)).into_raw();
    assert_eq!(item, 7);
    assert_eq!(calls.get(), 0);
}

#[test]
fn obsbox_destructor_gets_the_item_once() {
    let seen = Cell::new(0u64);
    let calls = Cell::new(0u32);
    {
        let b = OBSBox::new(42u64, |item| {
            seen.set(item);
            calls.set(calls.get() + 1)
        });
        assert_eq!(calls.get(), 0);
        b.destroy();
    }
    assert_eq!(seen.get(), 42);
    assert_eq!(calls.get(), 1);
}

#[test]
fn obsbox_dropped_unconsumed_runs_nothing() {
    let calls = Cell::new(0u32);
    {
        let _b = OBSBox::new(String::from("owned"), |_| calls.set(calls.get() + 1));
    }
    assert_eq!(calls.get(), 0);
}

#[test]
fn properties_create_and_destroy() {
    properties::create();
}

#[test]
fn properties_keep_order_and_flags() {
    let mut props = properties::create();
    assert!(props.properties.is_empty());
    assert_eq!(props.flags, 0);
    props.add_text("a", "First", obs_text_type::DEFAULT);
    props.add_text("b", "Second", obs_text_type::PASSWORD);
    props.set_flags(DEFER_UPDATE);
    assert_eq!(props.properties.len(), 2);
    assert_eq!(props.properties[0].name, "a");
    assert_eq!(props.properties[0].description, "First");
    assert_eq!(props.properties[1].name, "b");
    assert_eq!(props.properties[1].typ, obs_text_type::PASSWORD);
    assert_eq!(props.flags, 1);
}

#[test]
fn semver_packs_fields() {
    assert_eq!(obs_semver(0, 16, 4), 0x0010_0004);
    assert_eq!(obs_semver(1, 2, 3), 0x0102_0003);
    assert_eq!(obs_semver(255, 255, 65535), 0xffff_ffff);
    assert_eq!(api_version(), 1_048_580);
    let v = obs_api_version();
    assert_eq!((v.major, v.minor, v.patch), (0, 16, 4));
}

#[test]
fn semver_oversized_fields_spill() {
    // The fields are or-ed, not range checked: an oversized patch spills into
    // the minor byte, and an oversized major loses its high bits.
    assert_eq!(obs_semver(0, 1, 0x1_0000), 0x0001_0000);
    assert_eq!(obs_semver(0x1ff, 0, 0), 0xff00_0000);
}

#[test]
fn semver_fields_read_back_and_order() {
    let v = obs_semver(27, 1, 3);
    assert_eq!(v >> 24, 27);
    assert_eq!((v >> 16) & 0xff, 1);
    assert_eq!(v & 0xffff, 3);
    assert!(obs_semver(0, 16, 4) < obs_semver(0, 17, 0));
    assert!(obs_semver(0, 255, 65535) < obs_semver(1, 0, 0));
    assert!(obs_semver(1, 2, 3) > obs_semver(1, 2, 2));
}

#[test]
fn data_defaults_and_values() {
    let mut d = obs_data_t::new();
    assert_eq!(d.get_string("status"), "");
    d.set_default_string("status", "idle");
    assert_eq!(d.get_string("status"), "idle");
    d.set_string("status", "live");
    assert_eq!(d.get_string("status"), "live");
    d.set_default_string("status", "other");
    assert_eq!(d.get_string("status"), "live");
    d.set_string("status", "again");
    assert_eq!(d.get_string("status"), "again");
    assert_eq!(d.get_string("game"), "");
}

fn output(name: &str, active: bool, key: Option<&str>) -> obs_output_t {
    obs_output_t {
        name: name.to_string(),
        service: Some(obs_service_t {
            name: "twitch".to_string(),
            key: key.map(|k| k.to_string()),
            url: "rtmp://live.twitch.tv/app".to_string(),
        }),
        active,
    }
}

#[test]
fn output_and_service_readers() {
    let o = output("stream", true, Some("live_123"));
    assert_eq!(o.get_name(), "stream");
    assert!(o.active());
    let s = o.get_service().unwrap();
    assert_eq!(s.get_name(), "twitch");
    assert_eq!(s.get_key(), Some("live_123"));
    assert_eq!(s.get_url(), "rtmp://live.twitch.tv/app");
    let bare = obs_output_t { name: "rec".to_string(), service: None, active: false };
    assert!(bare.get_service().is_none());
    assert!(!bare.active());
}

#[test]
fn enumeration_stops_at_first_false() {
    let outputs = vec![
        output("a", false, None),
        output("b", true, Some("k")),
        output("c", true, Some("j")),
    ];
    assert_eq!(enum_outputs(&outputs, |o| !o.active), Some(1));
    assert_eq!(enum_outputs(&outputs, |_| true), None);
    assert_eq!(enum_outputs(&outputs, |_| false), Some(0));
    let none: Vec<obs_output_t> = Vec::new();
    assert_eq!(enum_outputs(&none, |_| false), None);
    let sources = vec![obs_source_t {}, obs_source_t {}];
    assert_eq!(enum_sources(&sources, |_| true), None);
    assert_eq!(enum_sources(&sources, |_| false), Some(0));
}
