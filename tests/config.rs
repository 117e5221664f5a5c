use colorsys::Rgb;
use runst::config::{Config, Geometry, GlobalConfig, UrgencyConfig};
use runst::notification::Urgency;

fn policy(timeout: u32) -> UrgencyConfig {
    UrgencyConfig {
        background: Rgb::default(),
        foreground: Rgb::default(),
        timeout,
        auto_clear: None,
        text: None,
        custom_commands: None,
    }
}

#[test]
fn geometry_reads_four_numbers() {
    let g = Geometry::parse("800x60+10+20").unwrap();
    assert_eq!(g, Geometry { width: 800, height: 60, x: 10, y: 20 });
    let g: Geometry = "0x0+0+0".parse().unwrap();
    assert_eq!(g, Geometry { width: 0, height: 0, x: 0, y: 0 });
    let g = Geometry::parse("4294967295x007+1+2").unwrap();
    assert_eq!(g.width, u32::MAX);
    assert_eq!(g.height, 7);
}

#[test]
fn geometry_refuses_other_text() {
    for s in [
        "",
        "800x60",
        "800x60+10",
        "800x60+10+",
        "x60+10+20",
        "800y60+10+20",
        "800x60+10+20+5",
        "-1x60+10+20",
        "80 0x60+10+20",
        "4294967296x60+10+20",
        "800x60+10+20 ",
    ] {
        assert!(Geometry::parse(s).is_err(), "{s}");
    }
}

#[test]
fn urgency_selects_its_configuration() {
    let config = Config {
        global: GlobalConfig {
            log_verbosity: tracing::Level::INFO,
            startup_notification: false,
            geometry: Geometry { width: 1, height: 2, x: 3, y: 4 },
            wrap_content: false,
            font: String::from("Monospace 10"),
            template: String::from("{{summary}}"),
        },
        urgency_low: policy(1),
        urgency_normal: policy(2),
        urgency_critical: policy(3),
    };
    assert_eq!(config.get_urgency_config(&Urgency::Low).timeout, 1);
    assert_eq!(config.get_urgency_config(&Urgency::Normal).timeout, 2);
    assert_eq!(config.get_urgency_config(&Urgency::Critical).timeout, 3);
}
