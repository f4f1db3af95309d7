use std::collections::HashMap;

use winbar::color::Color;
use winbar::component::ComponentIds;
use winbar::config::color::ColorConfig;
use winbar::config::{
    default_component_gap, default_font_size, BorderStyleConfig, ComponentData, ComponentLayout,
    ComponentType, Config, ConfigError, ConfiguredComponent, StatusBarConfig, StyleConfig,
};
use winbar::hex_parser::ParseError;
use winbar::layout::ComponentLocation;
use winbar::styles::BorderStyle;

fn strip(layout_id: &str) -> StatusBarConfig {
    StatusBarConfig {
        x: 0,
        y: 0,
        width: 1080,
        height: 20,
        layout_id: layout_id.to_string(),
        component_gap: default_component_gap(),
        status_bar_bg_color: ColorConfig::Transparent,
        default_component_bg_color: ColorConfig::Rgb { r: 23, g: 23, b: 23 },
        default_component_fg_color: ColorConfig::Rgb { r: 33, g: 181, b: 80 },
        default_font: "Segoe UI Variable".to_string(),
        default_font_size: default_font_size(),
    }
}

fn layout(id: &str) -> ComponentLayout {
    ComponentLayout {
        id: id.to_string(),
        components: vec![ComponentData {
            location: ComponentLocation::Left,
            component: ComponentType::StaticText {
                text: "Winbar!".to_string(),
                styles: StyleConfig { padding_x: 10, ..StyleConfig::default() },
            },
        }],
    }
}

#[test]
fn defaults() {
    assert_eq!(default_component_gap(), 10);
    assert_eq!(default_font_size(), 18);
    let config = Config::default();
    assert!(config.status_bars.is_empty());
    assert!(config.layouts.is_empty());
    assert!(config.plugin_dir.is_empty());
    let styles = StyleConfig::default();
    assert_eq!(styles.bg_color, ColorConfig::Default);
    assert_eq!(styles.fg_color, ColorConfig::Default);
    assert_eq!(styles.border_style, BorderStyleConfig::Square);
    assert_eq!((styles.font, styles.font_size, styles.padding_x), (None, None, 0));
    assert_eq!(BorderStyleConfig::default(), BorderStyleConfig::Square);
}

#[test]
fn border_styles() {
    assert_eq!(BorderStyle::from(BorderStyleConfig::Square), BorderStyle::Square);
    assert_eq!(
        BorderStyle::from(BorderStyleConfig::Rounded { radius: 4 }),
        BorderStyle::Rounded { radius: 4 }
    );
}

#[test]
fn styles_become_options() {
    let styles = StyleConfig {
        bg_color: ColorConfig::Hex("#010203".to_string()),
        fg_color: ColorConfig::Default,
        border_style: BorderStyleConfig::Rounded { radius: 3 },
        font: Some("Consolas".to_string()),
        font_size: Some(12),
        padding_x: 7,
    };
    let copy = styles.clone();
    assert_eq!(copy.bg_color, styles.bg_color);
    assert_eq!(copy.font, styles.font);
    let options = styles.into_options();
    assert_eq!(options.bg_color, Some(Color::Rgb { r: 1, g: 2, b: 3 }));
    assert_eq!(options.fg_color, None);
    assert_eq!(options.border_style, BorderStyle::Rounded { radius: 3 });
    assert_eq!(options.font, Some("Consolas".to_string()));
    assert_eq!(options.font_size, Some(12));
    assert_eq!(options.padding_x, 7);
    assert_eq!(copy.try_into_options().unwrap().bg_color, Some(Color::Rgb { r: 1, g: 2, b: 3 }));
}

#[test]
fn styles_with_a_colour_that_is_none() {
    let background = StyleConfig {
        bg_color: ColorConfig::Hex("12".to_string()),
        fg_color: ColorConfig::Hex("zz".to_string()),
        ..StyleConfig::default()
    };
    assert_eq!(background.try_into_options().err(), Some(ParseError::InvalidHexColor));
    let foreground = StyleConfig {
        fg_color: ColorConfig::Hex("#GGGGGG".to_string()),
        ..StyleConfig::default()
    };
    assert_eq!(foreground.try_into_options().err(), Some(ParseError::InvalidHexColor));
}

#[test]
fn components_are_built_from_their_configuration() {
    let mut ids = ComponentIds::new();
    let text = ComponentType::StaticText {
        text: "Winbar!".to_string(),
        styles: StyleConfig { padding_x: 10, ..StyleConfig::default() },
    };
    match text.to_component(&mut ids) {
        Ok(ConfiguredComponent::StaticText(component)) => {
            assert_eq!(component.text, "Winbar!");
            assert_eq!(component.styles.padding_x, 10);
        }
        _ => panic!("not a static text"),
    }
    let clock = ComponentType::DateTime { format: "%F %r".to_string(), styles: StyleConfig::default() };
    match clock.to_component(&mut ids) {
        Ok(ConfiguredComponent::DateTime(component)) => assert_eq!(component.format, "%F %r"),
        _ => panic!("not a clock"),
    }
    assert_eq!(ids.issue(), Some(0));

    let plugin = ComponentType::Plugin {
        id: "test".to_string(),
        styles: StyleConfig { bg_color: ColorConfig::Transparent, ..StyleConfig::default() },
        other: HashMap::new(),
    };
    for expected in [1, 2] {
        match plugin.to_component(&mut ids) {
            Ok(ConfiguredComponent::Plugin(component)) => {
                assert_eq!(component.plugin, "test");
                assert_eq!(component.component_id, expected);
                assert_eq!(component.styles.bg_color, Some(Color::Transparent));
            }
            _ => panic!("not a plugin component"),
        }
    }
    assert_eq!(ids.issue(), Some(3));
}

#[test]
fn a_component_with_a_broken_colour_is_not_built() {
    let mut ids = ComponentIds::new();
    let plugin = ComponentType::Plugin {
        id: "test".to_string(),
        styles: StyleConfig { fg_color: ColorConfig::Hex("nope".to_string()), ..StyleConfig::default() },
        other: HashMap::new(),
    };
    assert!(matches!(
        plugin.to_component(&mut ids),
        Err(ConfigError::InvalidColor(ParseError::InvalidHexColor))
    ));
    assert_eq!(ids.issue(), Some(0));
}

#[test]
fn a_plugin_component_needs_a_free_id() {
    let mut ids = ComponentIds::starting_at(u32::MAX);
    let plugin = ComponentType::Plugin {
        id: "test".to_string(),
        styles: StyleConfig::default(),
        other: HashMap::new(),
    };
    assert!(matches!(plugin.to_component(&mut ids), Err(ConfigError::OutOfComponentIds)));
    let text = ComponentType::StaticText { text: "t".to_string(), styles: StyleConfig::default() };
    assert!(matches!(text.to_component(&mut ids), Ok(ConfiguredComponent::StaticText(_))));
}

#[test]
fn layouts_are_found_by_id() {
    let config = Config {
        status_bars: vec![strip("main"), strip("side")],
        plugin_dir: "plugins".to_string(),
        layouts: vec![layout("side"), layout("main"), layout("side")],
    };
    assert_eq!(config.layout("main"), Some(1));
    assert_eq!(config.layout("side"), Some(0));
    assert_eq!(config.layout("other"), None);
    assert_eq!(config.layout(""), None);
    assert_eq!(config.check_layouts(), Ok(()));
    assert_eq!(config.layouts[1].components.len(), 1);
}

#[test]
fn a_strip_with_an_unknown_layout_is_an_error() {
    let config = Config {
        status_bars: vec![strip("main"), strip("gone"), strip("lost")],
        plugin_dir: String::new(),
        layouts: vec![layout("main")],
    };
    assert_eq!(config.check_layouts(), Err(ConfigError::UnknownLayout("gone".to_string())));
    assert_eq!(Config::default().check_layouts(), Ok(()));
}
