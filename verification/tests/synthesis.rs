use pixi_generator::manifest::{EnvConfig, Manifest, Service, VersionField};
use pixi_generator::synth::{synthesize, template_data_for, unit_file_name, SynthError};

fn env_with_service(status: &str) -> EnvConfig {
    EnvConfig {
        channels: vec![String::from("conda-forge")],
        dependencies: vec![(String::from("python"), String::from("3.12"))],
        exposed: None,
        service: Some(Service {
            status: String::from(status),
            after: Some(String::from("network.target")),
            exec_start_pre: Some(String::from("/bin/true")),
            exec_start: Some(String::from("/usr/bin/serve")),
        }),
    }
}

fn env_without_service() -> EnvConfig {
    EnvConfig {
        channels: vec![String::from("conda-forge")],
        dependencies: vec![],
        exposed: Some(vec![(String::from("tool"), String::from("tool"))]),
        service: None,
    }
}

const TEMPLATE: &str = "[Unit]\nDescription={{ description }}\nAfter={{ after }}\n\n[Service]\nExecStartPre={{ exec_start_pre }}\nExecStart={{ exec_start }}\n# {{ name }}\n";

fn expected_body(name: &str) -> String {
    format!(
        "[Unit]\nDescription={n}\nAfter=unknown\n\n[Service]\nExecStartPre=missing\nExecStart=missing\n# {n}\n",
        n = name
    )
}

#[test]
fn one_service_environment_one_unit() {
    let m = Manifest {
        version: VersionField::Int(1),
        envs: vec![(String::from("foo"), env_with_service("enabled"))],
    };
    let units = synthesize(&m, TEMPLATE).unwrap();
    assert_eq!(units.len(), 1);
    assert_eq!(units[0].unit_name, String::from("foo.service"));
    assert_eq!(units[0].body, expected_body("foo"));
}

#[test]
fn environment_without_service_is_skipped() {
    let m = Manifest {
        version: VersionField::Int(1),
        envs: vec![
            (String::from("served"), env_with_service("enabled")),
            (String::from("plain"), env_without_service()),
        ],
    };
    let units = synthesize(&m, TEMPLATE).unwrap();
    assert_eq!(units.len(), 1);
    assert_eq!(units[0].unit_name, String::from("served.service"));
    assert_eq!(units[0].body, expected_body("served"));
}

#[test]
fn unsupported_version_still_synthesizes() {
    let m = Manifest {
        version: VersionField::Int(2),
        envs: vec![(String::from("foo"), env_with_service("enabled"))],
    };
    let units = synthesize(&m, TEMPLATE).unwrap();
    assert_eq!(units.len(), 1);
    assert_eq!(units[0].unit_name, String::from("foo.service"));
    assert_eq!(units[0].body, expected_body("foo"));
}

#[test]
fn manifest_order_is_kept() {
    let m = Manifest {
        version: VersionField::Int(1),
        envs: vec![
            (String::from("beta"), env_with_service("enabled")),
            (String::from("alpha"), env_with_service("disabled")),
        ],
    };
    let units = synthesize(&m, TEMPLATE).unwrap();
    assert_eq!(units.len(), 2);
    assert_eq!(units[0].unit_name, String::from("beta.service"));
    assert_eq!(units[1].unit_name, String::from("alpha.service"));
}

#[test]
fn rerun_is_byte_identical() {
    let m = Manifest {
        version: VersionField::Int(1),
        envs: vec![
            (String::from("foo"), env_with_service("enabled")),
            (String::from("bar"), env_with_service("enabled")),
        ],
    };
    let first = synthesize(&m, TEMPLATE).unwrap();
    let second = synthesize(&m, TEMPLATE).unwrap();
    assert_eq!(first.len(), second.len());
    for (a, b) in first.iter().zip(second.iter()) {
        assert_eq!(a.unit_name, b.unit_name);
        assert_eq!(a.body, b.body);
    }
}

#[test]
fn empty_manifest_synthesizes_nothing() {
    let m = Manifest { version: VersionField::Int(1), envs: vec![] };
    let units = synthesize(&m, TEMPLATE).unwrap();
    assert_eq!(units.len(), 0);
}

#[test]
fn malformed_template_is_a_render_error() {
    let m = Manifest {
        version: VersionField::Int(1),
        envs: vec![(String::from("foo"), env_with_service("enabled"))],
    };
    let r = synthesize(&m, "{{ unclosed");
    assert_eq!(r.err(), Some(SynthError::Render));
}

#[test]
fn template_data_uses_placeholders() {
    let d = template_data_for(&String::from("foo"));
    assert_eq!(d.name, "foo");
    assert_eq!(d.description, "foo");
    assert_eq!(d.after, "unknown");
    assert_eq!(d.exec_start_pre, "missing");
    assert_eq!(d.exec_start, "missing");
}

#[test]
fn unit_file_name_appends_suffix() {
    assert_eq!(unit_file_name(&String::from("foo")), String::from("foo.service"));
}
