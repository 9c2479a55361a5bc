use edge_identity::demo_data::{placeholder_cpu, placeholder_memory};
use edge_identity::health::{Health, HealthStatus, Status};
use edge_identity::logs::{log_text, retain_ascii, strip_frame_headers};
use edge_identity::management::{checked_url, modules_address_text, modules_url, AddressError};
use edge_identity::modules::{any_stopped, health_of, module_runs, modules_of, Module, TConfig};
use edge_identity::replies::{
    health_response, invalid_module_reply, json_reply, logs_reply, module_response, restarted_reply,
    unavailable_reply, Reply,
};

const CPU: [i32; 8] = [0, 20, 14, 33, 27, 24, 4, 8];
const MEMORY: [i32; 8] = [150, 200, 140, 175, 190, 80, 125, 75];

fn module(id: &str, status: &str) -> Module {
    Module::with_figures(id.to_string(), status.to_string(), 0, 150)
}

fn status(iotedged: bool, edge_agent: bool, edge_hub: bool, other_modules: bool) -> Status {
    let mut s = Status::new();
    if iotedged {
        s.set_iotedged();
    }
    s.set_edge_agent(edge_agent);
    s.set_edge_hub(edge_hub);
    s.set_other_modules(other_modules);
    s
}

#[test]
fn new_status_has_everything_down() {
    let s = Status::new();
    assert_eq!(
        s,
        Status { iotedged: false, edge_agent: false, edge_hub: false, other_modules: false }
    );
    assert_eq!(s.return_health(), Health::Poor);
}

#[test]
fn setters_change_one_flag_each() {
    let mut s = Status::new();
    s.set_iotedged();
    assert_eq!(s, Status { iotedged: true, edge_agent: false, edge_hub: false, other_modules: false });
    s.set_edge_agent(true);
    assert_eq!(s, Status { iotedged: true, edge_agent: true, edge_hub: false, other_modules: false });
    s.set_edge_hub(true);
    assert_eq!(s, Status { iotedged: true, edge_agent: true, edge_hub: true, other_modules: false });
    s.set_other_modules(true);
    assert_eq!(s, Status { iotedged: true, edge_agent: true, edge_hub: true, other_modules: true });
    s.set_edge_agent(false);
    assert_eq!(s, Status { iotedged: true, edge_agent: false, edge_hub: true, other_modules: true });
}

#[test]
fn health_follows_the_rollup_rule() {
    for bits in 0..16 {
        let (a, b, c, d) = (bits & 1 != 0, bits & 2 != 0, bits & 4 != 0, bits & 8 != 0);
        let expected = if a && b && c {
            if d {
                Health::Healthy
            } else {
                Health::Degraded
            }
        } else {
            Health::Poor
        };
        assert_eq!(status(a, b, c, d).return_health(), expected);
    }
}

#[test]
fn health_status_keeps_its_parts() {
    let s = status(true, true, true, false);
    let h = HealthStatus::new(Health::Degraded, s);
    assert_eq!(h.health, Health::Degraded);
    assert_eq!(h.status, s);
}

#[test]
fn module_entry_is_filled_in() {
    let m = Module::new("edgeAgent".to_string(), "running".to_string());
    assert_eq!(m.id(), "edgeAgent");
    assert_eq!(m.status(), "running");
    assert_eq!(m.module_type, "docker");
    assert_eq!(m.config.image, "mcr.microsoft.com/edgeAgent:1.0");
    assert!(CPU.contains(&m.cpu));
    assert!(MEMORY.contains(&m.memory_in_mb));
    assert_eq!(TConfig::new("x".to_string()).image, "mcr.microsoft.com/x:1.0");
    assert_eq!(TConfig::new(String::new()).image, "mcr.microsoft.com/:1.0");
    let fixed = Module::with_figures("a".to_string(), "b".to_string(), 33, 75);
    assert_eq!(fixed.cpu, 33);
    assert_eq!(fixed.memory_in_mb, 75);
}

#[test]
fn placeholder_figures_come_from_the_lists() {
    for _ in 0..200 {
        assert!(CPU.contains(&placeholder_cpu()));
        assert!(MEMORY.contains(&placeholder_memory()));
    }
}

#[test]
fn modules_are_listed_in_order() {
    let entries = vec![
        ("edgeAgent".to_string(), "running".to_string()),
        ("edgeHub".to_string(), "".to_string()),
    ];
    let listed = modules_of(entries);
    assert_eq!(listed.len(), 2);
    assert_eq!(listed[0].id(), "edgeAgent");
    assert_eq!(listed[0].status(), "running");
    assert_eq!(listed[1].id(), "edgeHub");
    assert_eq!(listed[1].status(), "");
    assert_eq!(listed[1].config.image, "mcr.microsoft.com/edgeHub:1.0");
    assert!(modules_of(Vec::new()).is_empty());
}

#[test]
fn device_health_from_the_module_list() {
    let all_running = vec![module("edgeAgent", "running"), module("edgeHub", "running")];
    let h = health_of(&all_running);
    assert_eq!(h.status, status(true, true, true, false));
    assert_eq!(h.health, Health::Degraded);

    let one_stopped = vec![
        module("edgeAgent", "running"),
        module("edgeHub", "running"),
        module("sensor", "stopped"),
    ];
    let h = health_of(&one_stopped);
    assert_eq!(h.status, status(true, true, true, true));
    assert_eq!(h.health, Health::Healthy);

    let hub_down = vec![module("edgeAgent", "running"), module("edgeHub", "stopped")];
    let h = health_of(&hub_down);
    assert_eq!(h.status, status(true, true, false, false));
    assert_eq!(h.health, Health::Poor);

    let h = health_of(&Vec::new());
    assert_eq!(h.status, status(true, false, false, false));
    assert_eq!(h.health, Health::Poor);

    assert!(module_runs(&all_running, "edgeAgent"));
    assert!(!module_runs(&hub_down, "edgeHub"));
    assert!(!module_runs(&all_running, "edgeagent"));
    assert!(any_stopped(&hub_down));
    assert!(!any_stopped(&all_running));
}

#[test]
fn log_text_drops_headers_and_foreign_bytes() {
    let chunks = vec![
        b"\x01\x00\x00\x00\x00\x00\x00\x05hello".to_vec(),
        b"short".to_vec(),
        b"\x02\x00\x00\x00\x00\x00\x00\x08 w\xc3\xb6rld\n".to_vec(),
        b"12345678".to_vec(),
    ];
    assert_eq!(strip_frame_headers(&chunks), b"hello w\xc3\xb6rld\n".to_vec());
    assert_eq!(retain_ascii(&b"a\x80b\xffc\x7f".to_vec()), b"abc\x7f".to_vec());
    assert_eq!(log_text(&chunks), "hello wrld\n");
    assert_eq!(log_text(&Vec::new()), "");
    assert_eq!(
        logs_reply(&chunks),
        Reply { status: 200, content_type: None, body: "hello wrld\n".to_string() }
    );
}

#[test]
fn module_list_address() {
    assert_eq!(
        modules_address_text("http://localhost:35000", "2018-06-28"),
        "http://localhost:35000/modules/?api-version=2018-06-28"
    );
    let url = modules_url("http://localhost:35000", "2018-06-28").unwrap();
    assert_eq!(url.as_str(), "http://localhost:35000/modules/?api-version=2018-06-28");
    assert_eq!(modules_url("localhost", "2018-06-28").unwrap_err(), AddressError::Invalid);
    assert_eq!(modules_url("", "").unwrap_err(), AddressError::Invalid);
    assert!(checked_url("unix:///var/run/iotedge/mgmt.sock").is_ok());
    assert_eq!(checked_url("/modules").unwrap_err(), AddressError::Invalid);
}

#[test]
fn replies_of_the_dashboard() {
    assert_eq!(
        invalid_module_reply(),
        Reply { status: 400, content_type: None, body: "Invalid module ID".to_string() }
    );
    assert_eq!(
        restarted_reply(),
        Reply { status: 200, content_type: None, body: "Module has restarted".to_string() }
    );
    assert_eq!(
        unavailable_reply("no config".to_string()),
        Reply {
            status: 503,
            content_type: Some("text/plain".to_string()),
            body: "no config".to_string(),
        }
    );
    assert_eq!(
        module_response(Some("[]".to_string())),
        Reply { status: 200, content_type: Some("text/json".to_string()), body: "[]".to_string() }
    );
    assert_eq!(
        module_response(None),
        Reply {
            status: 503,
            content_type: None,
            body: "Unable to convert output to JSON".to_string(),
        }
    );
    assert_eq!(
        health_response(None),
        Reply { status: 503, content_type: None, body: "Unable to convert to JSON".to_string() }
    );
    assert_eq!(
        health_response(Some("{}".to_string())),
        Reply { status: 200, content_type: Some("text/json".to_string()), body: "{}".to_string() }
    );
    assert_eq!(
        json_reply(None, "sorry"),
        Reply { status: 503, content_type: None, body: "sorry".to_string() }
    );
}
