//! The configuration of the status bar, as the runtime consumes it.
//!
//! A configuration describes strips, each with its geometry and default
//! styles, and names for each strip the layout that fills it: an ordered
//! list of components with the region each one goes to.

use vstd::prelude::*;
use vstd::std_specs::convert::FromSpecImpl;
use std::collections::HashMap;
use crate::component::{ComponentIds, DateTimeComponent, StaticTextComponent};
use crate::hex_parser::ParseError;
use crate::layout::ComponentLocation;
use crate::plugin::PluginComponent;
use crate::styles::{BorderStyle, StyleOptions};
use crate::text::same_text;
use self::color::ColorConfig;

pub mod color;

verus! {

/// The gap between components where a strip names none.
pub fn default_component_gap() -> (gap: i32)
    ensures
        gap == 10,
{
    10
}

/// The font size of components where a strip names none.
pub fn default_font_size() -> (size: i32)
    ensures
        size == 18,
{
    18
}

/// What is wrong with a configuration.
#[derive(Clone, Debug, PartialEq, Eq)]
pub enum ConfigError {
    /// A strip names a layout that is not defined.
    UnknownLayout(String),
    /// A colour written in hexadecimal is none.
    InvalidColor(ParseError),
    /// No id is left for a component that a plugin backs.
    OutOfComponentIds,
}

/// One strip of the status bar.
pub struct StatusBarConfig {
    /// The x position of the status bar
    pub x: i32,
    /// The y position of the status bar
    pub y: i32,
    /// The width of the status bar
    pub width: i32,
    /// The height of the status bar
    pub height: i32,
    /// The layout id to apply to this status bar (as defined in `layouts`)
    pub layout_id: String,
    /// The gap, in pixels, between components
    pub component_gap: i32,
    /// The background color of the status bar
    pub status_bar_bg_color: ColorConfig,
    /// The default background color of components
    pub default_component_bg_color: ColorConfig,
    /// The default foreground color of components
    pub default_component_fg_color: ColorConfig,
    /// The default font of components
    pub default_font: String,
    /// The default font size of components
    pub default_font_size: i32,
}

/// The outline of a component's background, in a configuration.
#[derive(Clone, Copy, Debug, PartialEq, Eq, Structural)]
pub enum BorderStyleConfig {
    Square,
    Rounded { radius: i32 },
}

impl Default for BorderStyleConfig {
    fn default() -> (r: BorderStyleConfig)
        ensures
            r == BorderStyleConfig::Square,
    {
        BorderStyleConfig::Square
    }
}

/// The border style that a configured one stands for.
pub open spec fn border_style_of(value: BorderStyleConfig) -> BorderStyle {
    match value {
        BorderStyleConfig::Square => BorderStyle::Square,
        BorderStyleConfig::Rounded { radius } => BorderStyle::Rounded { radius },
    }
}

impl From<BorderStyleConfig> for BorderStyle {
    fn from(value: BorderStyleConfig) -> (r: BorderStyle) {
        match value {
            BorderStyleConfig::Square => BorderStyle::Square,
            BorderStyleConfig::Rounded { radius } => BorderStyle::Rounded { radius },
        }
    }
}

impl FromSpecImpl<BorderStyleConfig> for BorderStyle {
    open spec fn obeys_from_spec() -> bool {
        true
    }

    open spec fn from_spec(value: BorderStyleConfig) -> BorderStyle {
        border_style_of(value)
    }
}

/// The styles of one component, in a configuration.
#[derive(Debug)]
pub struct StyleConfig {
    pub bg_color: ColorConfig,
    pub fg_color: ColorConfig,
    pub border_style: BorderStyleConfig,
    pub font: Option<String>,
    pub font_size: Option<i32>,
    pub padding_x: i32,
}

impl Default for StyleConfig {
    fn default() -> (r: StyleConfig)
        ensures
            r.bg_color == ColorConfig::Default,
            r.fg_color == ColorConfig::Default,
            r.border_style == BorderStyleConfig::Square,
            r.font is None,
            r.font_size is None,
            r.padding_x == 0,
    {
        StyleConfig {
            bg_color: ColorConfig::Default,
            fg_color: ColorConfig::Default,
            border_style: BorderStyleConfig::Square,
            font: None,
            font_size: None,
            padding_x: 0,
        }
    }
}

impl Clone for StyleConfig {
    fn clone(&self) -> (r: StyleConfig)
        ensures
            r == *self,
    {
        StyleConfig {
            bg_color: self.bg_color.clone(),
            fg_color: self.fg_color.clone(),
            border_style: self.border_style,
            font: match &self.font {
                Some(font) => Some(font.clone()),
                None => None,
            },
            font_size: self.font_size,
            padding_x: self.padding_x,
        }
    }
}

impl StyleConfig {
    /// Both colours can be told.
    pub open spec fn has_colors(&self) -> bool {
        self.bg_color.has_color() && self.fg_color.has_color()
    }

    /// The styles that the configuration stands for, or the reason for
    /// which the first of background and foreground colour is none.
    pub open spec fn options_result(&self) -> Result<StyleOptions, ParseError> {
        match (self.bg_color.color_result(), self.fg_color.color_result()) {
            (Err(e), _) => Err(e),
            (_, Err(e)) => Err(e),
            _ => Ok(self.options()),
        }
    }

    /// The styles that the configuration stands for.
    pub open spec fn options(&self) -> StyleOptions {
        StyleOptions {
            bg_color: self.bg_color.color_option(),
            fg_color: self.fg_color.color_option(),
            border_style: border_style_of(self.border_style),
            font: self.font,
            font_size: self.font_size,
            padding_x: self.padding_x,
        }
    }

    /// The styles that the configuration stands for.
    pub fn into_options(self) -> (r: StyleOptions)
        requires
            self.has_colors(),
        ensures
            r == self.options(),
    {
        StyleOptions {
            bg_color: self.bg_color.into_color_option(),
            fg_color: self.fg_color.into_color_option(),
            border_style: BorderStyle::from(self.border_style),
            font: self.font,
            font_size: self.font_size,
            padding_x: self.padding_x,
        }
    }

    /// As [`StyleConfig::into_options`], for any configuration: where a
    /// colour written in hexadecimal is none, the reason comes back instead,
    /// for the background colour before the foreground colour.
    pub fn try_into_options(self) -> (r: Result<StyleOptions, ParseError>)
        ensures
            r == self.options_result(),
    {
        match self.bg_color.clone().try_into_color_option() {
            Ok(_) => {},
            Err(e) => {
                return Err(e);
            },
        }
        match self.fg_color.clone().try_into_color_option() {
            Ok(_) => {},
            Err(e) => {
                return Err(e);
            },
        }
        Ok(self.into_options())
    }
}

/// What a component of a layout is.
pub enum ComponentType {
    StaticText { text: String, styles: StyleConfig },
    DateTime { format: String, styles: StyleConfig },
    Plugin { id: String, styles: StyleConfig, other: HashMap<String, serde_json::Value> },
}

/// A component that was built from its configuration.
pub enum ConfiguredComponent {
    StaticText(StaticTextComponent),
    DateTime(DateTimeComponent),
    Plugin(PluginComponent),
}

impl ComponentType {
    /// The styles of the component.
    pub open spec fn styles(&self) -> StyleConfig {
        match *self {
            ComponentType::StaticText { text, styles } => styles,
            ComponentType::DateTime { format, styles } => styles,
            ComponentType::Plugin { id, styles, other } => styles,
        }
    }

    /// Builds the component that the configuration describes.
    ///
    /// A component that a plugin backs gets the next free id of `ids`; its
    /// module and its own settings are left to be loaded. Fails where a
    /// colour of the styles is none, and for a plugin component once the ids
    /// are used up; `ids` changes only for a plugin component that is built.
    pub fn to_component(&self, ids: &mut ComponentIds) -> (r: Result<
        ConfiguredComponent,
        ConfigError,
    >)
        ensures
            self.styles().options_result() matches Err(e) ==> r == Err::<
                ConfiguredComponent,
                ConfigError,
            >(ConfigError::InvalidColor(e)),
            self.styles().has_colors() ==> match *self {
                ComponentType::StaticText { text, styles } => r matches Ok(
                    ConfiguredComponent::StaticText(c),
                ) && c.text == text && c.styles == styles.options(),
                ComponentType::DateTime { format, styles } => r matches Ok(
                    ConfiguredComponent::DateTime(c),
                ) && c.format == format && c.styles == styles.options(),
                ComponentType::Plugin { id, styles, other } => if old(ids).upcoming()
                    < u32::MAX {
                    r matches Ok(ConfiguredComponent::Plugin(c)) && c.plugin == id && c.styles
                        == styles.options() && c.component_id == old(ids).upcoming()
                } else {
                    r matches Err(ConfigError::OutOfComponentIds)
                },
            },
            final(ids).upcoming() == if r matches Ok(ConfiguredComponent::Plugin(_)) {
                old(ids).upcoming() + 1
            } else {
                old(ids).upcoming() as int
            },
    {
        match self {
            ComponentType::StaticText { text, styles } => {
                match styles.clone().try_into_options() {
                    Ok(options) => Ok(
                        ConfiguredComponent::StaticText(
                            StaticTextComponent::new(text.clone(), options),
                        ),
                    ),
                    Err(e) => Err(ConfigError::InvalidColor(e)),
                }
            },
            ComponentType::DateTime { format, styles } => {
                match styles.clone().try_into_options() {
                    Ok(options) => Ok(
                        ConfiguredComponent::DateTime(
                            DateTimeComponent::new(format.clone(), options),
                        ),
                    ),
                    Err(e) => Err(ConfigError::InvalidColor(e)),
                }
            },
            ComponentType::Plugin { id, styles, other: _ } => {
                match styles.clone().try_into_options() {
                    Ok(options) => match PluginComponent::new(id.clone(), options, ids) {
                        Some(component) => Ok(ConfiguredComponent::Plugin(component)),
                        None => Err(ConfigError::OutOfComponentIds),
                    },
                    Err(e) => Err(ConfigError::InvalidColor(e)),
                }
            },
        }
    }
}

/// A component of a layout with the region it goes to.
pub struct ComponentData {
    pub location: ComponentLocation,
    pub component: ComponentType,
}

/// A named, ordered list of components.
pub struct ComponentLayout {
    /// The unique id of this config
    pub id: String,
    pub components: Vec<ComponentData>,
}

/// The whole configuration.
pub struct Config {
    /// Status bar defintions
    pub status_bars: Vec<StatusBarConfig>,
    /// The path of the plugin directory
    pub plugin_dir: String,
    /// Component layout definitions
    pub layouts: Vec<ComponentLayout>,
}

impl Default for Config {
    fn default() -> (r: Config)
        ensures
            r.status_bars@.len() == 0,
            r.plugin_dir@.len() == 0,
            r.layouts@.len() == 0,
    {
        Config { status_bars: Vec::new(), plugin_dir: String::new(), layouts: Vec::new() }
    }
}

/// A layout is defined under `id`.
pub open spec fn layout_defined(layouts: Seq<ComponentLayout>, id: Seq<char>) -> bool {
    exists|i: int| 0 <= i < layouts.len() && (#[trigger] layouts[i]).id@ == id
}

impl Config {
    /// The first layout that is defined under `layout_id`, if any.
    pub fn layout(&self, layout_id: &str) -> (r: Option<usize>)
        ensures
            r is Some <==> layout_defined(self.layouts@, layout_id@),
            r matches Some(at) ==> at < self.layouts@.len() && self.layouts@[at as int].id@
                == layout_id@ && forall|j: int|
                0 <= j < at ==> (#[trigger] self.layouts@[j]).id@ != layout_id@,
    {
        let n: usize = self.layouts.len();
        let mut i: usize = 0;
        while i < n
            invariant
                i <= n,
                n == self.layouts@.len(),
                forall|j: int| 0 <= j < i ==> (#[trigger] self.layouts@[j]).id@ != layout_id@,
            decreases n - i,
        {
            if same_text(self.layouts[i].id.as_str(), layout_id) {
                return Some(i);
            }
            i += 1;
        }
        None
    }

    /// Checks that every strip names a layout that is defined. Fails with
    /// the name that the first strip in error asks for.
    pub fn check_layouts(&self) -> (r: Result<(), ConfigError>)
        ensures
            r is Ok <==> forall|i: int|
                0 <= i < self.status_bars@.len() ==> layout_defined(
                    self.layouts@,
                    (#[trigger] self.status_bars@[i]).layout_id@,
                ),
            r is Err ==> exists|i: int|
                0 <= i < self.status_bars@.len() && r == Err::<(), ConfigError>(
                    ConfigError::UnknownLayout((#[trigger] self.status_bars@[i]).layout_id),
                ) && !layout_defined(self.layouts@, self.status_bars@[i].layout_id@) && forall|
                    j: int,
                |
                    0 <= j < i ==> layout_defined(
                        self.layouts@,
                        (#[trigger] self.status_bars@[j]).layout_id@,
                    ),
    {
        let n: usize = self.status_bars.len();
        let mut i: usize = 0;
        while i < n
            invariant
                i <= n,
                n == self.status_bars@.len(),
                forall|j: int|
                    0 <= j < i ==> layout_defined(
                        self.layouts@,
                        (#[trigger] self.status_bars@[j]).layout_id@,
                    ),
            decreases n - i,
        {
            match self.layout(self.status_bars[i].layout_id.as_str()) {
                Some(_) => {},
                None => {
                    return Err(ConfigError::UnknownLayout(self.status_bars[i].layout_id.clone()));
                },
            }
            i += 1;
        }
        Ok(())
    }
}

} // verus!
