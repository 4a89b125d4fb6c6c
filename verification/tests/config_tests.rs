use entrypoint::config::{render_config, CONFIG_HEAD, CONFIG_TAIL};
use entrypoint::port::port_suffix;

#[test]
fn default_port_renders_static_text_only() {
    let rendered = render_config(443);
    let expected = format!("{}{}", CONFIG_HEAD, CONFIG_TAIL);
    assert_eq!(rendered, expected);
}

#[test]
fn non_default_port_appears_colon_prefixed() {
    let rendered = render_config(8443);
    assert!(rendered.contains(":8443"));
    let expected = format!("{}{}{}", CONFIG_HEAD, ":8443", CONFIG_TAIL);
    assert_eq!(rendered, expected);
}

#[test]
fn rendering_is_head_suffix_tail_for_sample_ports() {
    let samples: Vec<u16> = vec![1, 80, 443, 8080, 8443, 65535];
    for p in samples {
        let rendered = render_config(p);
        let expected = format!("{}{}{}", CONFIG_HEAD, port_suffix(p), CONFIG_TAIL);
        assert_eq!(rendered, expected);
        if p != 443 {
            assert!(rendered.contains(&format!(":{}", p)));
        }
    }
}

#[test]
fn template_has_single_substitution_point() {
    // the static parts themselves carry no stray substitution markers
    assert!(!CONFIG_HEAD.contains("{{"));
    assert!(!CONFIG_TAIL.contains("{{"));
}
