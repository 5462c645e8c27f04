//! The pages of the settings window.
use vstd::prelude::*;

use crate::dispatch::ControlField;
use crate::geometry::{half, Point, Rect};
use crate::layout::{add_row_separator, RowKind};
use crate::mapping::MappingMetrics;
use crate::page_rows::{
    row, row_action_button, stack_items, switch_row, LabelWidth, PageEnv, PageItem, PlacedCard,
    RowBlock, RowControl, RowTitle, SectionTitle, StackPlan,
};
use crate::restore::{RestoreDefaultsControl, RestoreLayout};
#[allow(unused_imports)]
use crate::{geometry, layout, page_rows};

verus! {

/// The items of the look.
pub open spec fn appearance_items() -> Seq<PageItem> {
    seq![
        PageItem::FirstHeading,
        PageItem::Row(row(
            RowTitle::Setting(ControlField::Theme),
            RowKind::Described,
            RowControl::Popup,
            LabelWidth::BeforeControl,
        )),
        PageItem::Row(row(
            RowTitle::Setting(ControlField::GlassStyle),
            RowKind::Described,
            RowControl::Popup,
            LabelWidth::BeforeControl,
        ).flush_below()),
        PageItem::Row(row(
            RowTitle::Setting(ControlField::GlassTint),
            RowKind::Described,
            RowControl::ColorWell,
            LabelWidth::BeforeControl,
        ).flush_below()),
        PageItem::Card(SectionTitle::Appearance),
    ]
}

/// The items of the look.
pub fn appearance_rows() -> (r: Vec<PageItem>)
    ensures
        r@ == appearance_items(),
{
    let mut items: Vec<PageItem> = Vec::new();
    items.push(PageItem::FirstHeading);
    items.push(PageItem::Row(row(
        RowTitle::Setting(ControlField::Theme),
        RowKind::Described,
        RowControl::Popup,
        LabelWidth::BeforeControl,
    )));
    items.push(PageItem::Row(row(
        RowTitle::Setting(ControlField::GlassStyle),
        RowKind::Described,
        RowControl::Popup,
        LabelWidth::BeforeControl,
    ).flush_below()));
    items.push(PageItem::Row(row(
        RowTitle::Setting(ControlField::GlassTint),
        RowKind::Described,
        RowControl::ColorWell,
        LabelWidth::BeforeControl,
    ).flush_below()));
    items.push(PageItem::Card(SectionTitle::Appearance));
    assert(items@ =~= appearance_items());
    items
}

/// The items of the general page below its previews.
pub open spec fn general_items() -> Seq<PageItem> {
    seq![
        PageItem::Heading,
        PageItem::Row(row(
            RowTitle::Setting(ControlField::Locale),
            RowKind::Plain,
            RowControl::Popup,
            LabelWidth::Column,
        )),
        PageItem::Card(SectionTitle::Language),
        PageItem::Heading,
        PageItem::Row(row(
            RowTitle::Setting(ControlField::LogLevel),
            RowKind::Described,
            RowControl::Popup,
            LabelWidth::BeforeControl,
        )),
        PageItem::Row(row(
            RowTitle::ExportLogs,
            RowKind::Described,
            RowControl::ActionButton,
            LabelWidth::BeforeControl,
        ).divided()),
        PageItem::Card(SectionTitle::Logging),
        PageItem::Heading,
        PageItem::Row(row(
            RowTitle::Setting(ControlField::LaunchAtLogin),
            RowKind::Described,
            RowControl::Switch,
            LabelWidth::BeforeLoginSwitch,
        )),
        PageItem::Card(SectionTitle::Startup),
    ]
}

/// The items of the general page below its previews.
pub fn general_rows() -> (r: Vec<PageItem>)
    ensures
        r@ == general_items(),
{
    let mut items: Vec<PageItem> = Vec::new();
    items.push(PageItem::Heading);
    items.push(PageItem::Row(row(
        RowTitle::Setting(ControlField::Locale),
        RowKind::Plain,
        RowControl::Popup,
        LabelWidth::Column,
    )));
    items.push(PageItem::Card(SectionTitle::Language));
    items.push(PageItem::Heading);
    items.push(PageItem::Row(row(
        RowTitle::Setting(ControlField::LogLevel),
        RowKind::Described,
        RowControl::Popup,
        LabelWidth::BeforeControl,
    )));
    items.push(PageItem::Row(row(
        RowTitle::ExportLogs,
        RowKind::Described,
        RowControl::ActionButton,
        LabelWidth::BeforeControl,
    ).divided()));
    items.push(PageItem::Card(SectionTitle::Logging));
    items.push(PageItem::Heading);
    items.push(PageItem::Row(row(
        RowTitle::Setting(ControlField::LaunchAtLogin),
        RowKind::Described,
        RowControl::Switch,
        LabelWidth::BeforeLoginSwitch,
    )));
    items.push(PageItem::Card(SectionTitle::Startup));
    assert(items@ =~= general_items());
    items
}

/// The items of the switcher page.
pub open spec fn switcher_items() -> Seq<PageItem> {
    seq![
        PageItem::FirstHeading,
        PageItem::Row(switch_row(ControlField::WindowsEnabled)),
        PageItem::Card(SectionTitle::Windows),
        PageItem::Heading,
        PageItem::Row(row(
            RowTitle::Setting(ControlField::ShowMinimized),
            RowKind::Tall,
            RowControl::Switch,
            LabelWidth::Wide,
        )),
        PageItem::Row(row(
            RowTitle::Setting(ControlField::ThumbnailsEnabled),
            RowKind::Tall,
            RowControl::Popup,
            LabelWidth::Wide,
        ).divided()),
        PageItem::Row(row(
            RowTitle::Setting(ControlField::FocusedThumbnailPrewarm),
            RowKind::Tall,
            RowControl::Switch,
            LabelWidth::BeforeControl,
        ).divided().in_block(RowBlock::ThumbnailOnly)),
        PageItem::Row(row(
            RowTitle::Setting(ControlField::ShowAppNameInCards),
            RowKind::Tall,
            RowControl::Switch,
            LabelWidth::Wide,
        ).divided().in_block(RowBlock::ThumbnailOnly)),
        PageItem::Row(row(
            RowTitle::Setting(ControlField::CardTextSize),
            RowKind::Described,
            RowControl::Slider,
            LabelWidth::BeforeControl,
        ).divided()),
        PageItem::Row(row(
            RowTitle::Setting(ControlField::StatusBarTextSize),
            RowKind::Described,
            RowControl::Slider,
            LabelWidth::BeforeControl,
        ).divided()),
        PageItem::Row(row(
            RowTitle::Setting(ControlField::OverlayPosition),
            RowKind::Tall,
            RowControl::Popup,
            LabelWidth::Column,
        ).divided()),
        PageItem::Row(row(
            RowTitle::Setting(ControlField::ActivationMode),
            RowKind::Tall,
            RowControl::Popup,
            LabelWidth::Column,
        ).divided()),
        PageItem::Row(row(
            RowTitle::Setting(ControlField::CornerRadius),
            RowKind::Tall,
            RowControl::TextInput,
            LabelWidth::Column,
        ).divided()),
        PageItem::Card(SectionTitle::WindowOptions),
        PageItem::Heading,
        PageItem::Row(row(
            RowTitle::Setting(ControlField::Modifier),
            RowKind::Tall,
            RowControl::Popup,
            LabelWidth::Column,
        )),
        PageItem::Card(SectionTitle::Keyboard),
    ]
}

/// The items of the switcher page.
pub fn switcher_rows() -> (r: Vec<PageItem>)
    ensures
        r@ == switcher_items(),
{
    let mut items: Vec<PageItem> = Vec::new();
    items.push(PageItem::FirstHeading);
    items.push(PageItem::Row(switch_row(ControlField::WindowsEnabled)));
    items.push(PageItem::Card(SectionTitle::Windows));
    items.push(PageItem::Heading);
    items.push(PageItem::Row(row(
        RowTitle::Setting(ControlField::ShowMinimized),
        RowKind::Tall,
        RowControl::Switch,
        LabelWidth::Wide,
    )));
    items.push(PageItem::Row(row(
        RowTitle::Setting(ControlField::ThumbnailsEnabled),
        RowKind::Tall,
        RowControl::Popup,
        LabelWidth::Wide,
    ).divided()));
    items.push(PageItem::Row(row(
        RowTitle::Setting(ControlField::FocusedThumbnailPrewarm),
        RowKind::Tall,
        RowControl::Switch,
        LabelWidth::BeforeControl,
    ).divided().in_block(RowBlock::ThumbnailOnly)));
    items.push(PageItem::Row(row(
        RowTitle::Setting(ControlField::ShowAppNameInCards),
        RowKind::Tall,
        RowControl::Switch,
        LabelWidth::Wide,
    ).divided().in_block(RowBlock::ThumbnailOnly)));
    items.push(PageItem::Row(row(
        RowTitle::Setting(ControlField::CardTextSize),
        RowKind::Described,
        RowControl::Slider,
        LabelWidth::BeforeControl,
    ).divided()));
    items.push(PageItem::Row(row(
        RowTitle::Setting(ControlField::StatusBarTextSize),
        RowKind::Described,
        RowControl::Slider,
        LabelWidth::BeforeControl,
    ).divided()));
    items.push(PageItem::Row(row(
        RowTitle::Setting(ControlField::OverlayPosition),
        RowKind::Tall,
        RowControl::Popup,
        LabelWidth::Column,
    ).divided()));
    items.push(PageItem::Row(row(
        RowTitle::Setting(ControlField::ActivationMode),
        RowKind::Tall,
        RowControl::Popup,
        LabelWidth::Column,
    ).divided()));
    items.push(PageItem::Row(row(
        RowTitle::Setting(ControlField::CornerRadius),
        RowKind::Tall,
        RowControl::TextInput,
        LabelWidth::Column,
    ).divided()));
    items.push(PageItem::Card(SectionTitle::WindowOptions));
    items.push(PageItem::Heading);
    items.push(PageItem::Row(row(
        RowTitle::Setting(ControlField::Modifier),
        RowKind::Tall,
        RowControl::Popup,
        LabelWidth::Column,
    )));
    items.push(PageItem::Card(SectionTitle::Keyboard));
    assert(items@ =~= switcher_items());
    items
}

/// The items of the mouse page above its table of mappings.
pub open spec fn mouse_items() -> Seq<PageItem> {
    seq![
        PageItem::FirstHeading,
        PageItem::Row(switch_row(ControlField::MouseEnabled)),
        PageItem::Card(SectionTitle::Mouse),
        PageItem::Heading,
        PageItem::Row(row(
            RowTitle::Device,
            RowKind::Tall,
            RowControl::Popup,
            LabelWidth::Column,
        )),
        PageItem::Row(row(
            RowTitle::Setting(ControlField::ScrollMode),
            RowKind::Tall,
            RowControl::Popup,
            LabelWidth::Column,
        ).divided()),
        PageItem::Row(row(
            RowTitle::Setting(ControlField::LineCount),
            RowKind::Tall,
            RowControl::Slider,
            LabelWidth::Column,
        ).divided().in_block(RowBlock::LineCount)),
        PageItem::Card(SectionTitle::MouseDevice),
        PageItem::Heading,
        PageItem::Row(switch_row(ControlField::ReverseScroll)),
        PageItem::Card(SectionTitle::MouseScrolling),
        PageItem::Heading,
        PageItem::Row(switch_row(ControlField::DisablePointerAccel)),
        PageItem::Row(row(
            RowTitle::Setting(ControlField::PointerAcceleration),
            RowKind::Tall,
            RowControl::Slider,
            LabelWidth::Column,
        ).divided().in_block(RowBlock::PointerAccel)),
        PageItem::Card(SectionTitle::MousePointer),
        PageItem::Heading,
        PageItem::Row(switch_row(ControlField::MappingEnabled)),
        PageItem::Card(SectionTitle::MouseMappings),
    ]
}

/// The items of the mouse page above its table of mappings.
pub fn mouse_rows() -> (r: Vec<PageItem>)
    ensures
        r@ == mouse_items(),
{
    let mut items: Vec<PageItem> = Vec::new();
    items.push(PageItem::FirstHeading);
    items.push(PageItem::Row(switch_row(ControlField::MouseEnabled)));
    items.push(PageItem::Card(SectionTitle::Mouse));
    items.push(PageItem::Heading);
    items.push(PageItem::Row(row(
        RowTitle::Device,
        RowKind::Tall,
        RowControl::Popup,
        LabelWidth::Column,
    )));
    items.push(PageItem::Row(row(
        RowTitle::Setting(ControlField::ScrollMode),
        RowKind::Tall,
        RowControl::Popup,
        LabelWidth::Column,
    ).divided()));
    items.push(PageItem::Row(row(
        RowTitle::Setting(ControlField::LineCount),
        RowKind::Tall,
        RowControl::Slider,
        LabelWidth::Column,
    ).divided().in_block(RowBlock::LineCount)));
    items.push(PageItem::Card(SectionTitle::MouseDevice));
    items.push(PageItem::Heading);
    items.push(PageItem::Row(switch_row(ControlField::ReverseScroll)));
    items.push(PageItem::Card(SectionTitle::MouseScrolling));
    items.push(PageItem::Heading);
    items.push(PageItem::Row(switch_row(ControlField::DisablePointerAccel)));
    items.push(PageItem::Row(row(
        RowTitle::Setting(ControlField::PointerAcceleration),
        RowKind::Tall,
        RowControl::Slider,
        LabelWidth::Column,
    ).divided().in_block(RowBlock::PointerAccel)));
    items.push(PageItem::Card(SectionTitle::MousePointer));
    items.push(PageItem::Heading);
    items.push(PageItem::Row(switch_row(ControlField::MappingEnabled)));
    items.push(PageItem::Card(SectionTitle::MouseMappings));
    assert(items@ =~= mouse_items());
    items
}

/// The items of the clipboard page.
pub open spec fn clipboard_items() -> Seq<PageItem> {
    seq![
        PageItem::FirstHeading,
        PageItem::Row(switch_row(ControlField::ClipboardEnabled)),
        PageItem::Card(SectionTitle::Clipboard),
        PageItem::Heading,
        PageItem::Row(row(
            RowTitle::Setting(ControlField::ClipboardPinFollow),
            RowKind::Plain,
            RowControl::Popup,
            LabelWidth::Wide,
        )),
        PageItem::Row(row(
            RowTitle::Setting(ControlField::ClipboardPersist),
            RowKind::Plain,
            RowControl::Switch,
            LabelWidth::Wide,
        ).divided()),
        PageItem::Row(row(
            RowTitle::Setting(ControlField::ClipboardShowSourceApp),
            RowKind::Plain,
            RowControl::Switch,
            LabelWidth::Column,
        ).divided()),
        PageItem::Row(row(
            RowTitle::Setting(ControlField::ClipboardMoveUsedToTop),
            RowKind::Plain,
            RowControl::Switch,
            LabelWidth::Wide,
        ).divided()),
        PageItem::Row(switch_row(ControlField::ClipboardDeleteAfterPaste).divided()),
        PageItem::Row(row(
            RowTitle::Setting(ControlField::ClipboardClearSystemPasteboardAfterPaste),
            RowKind::Tall,
            RowControl::Switch,
            LabelWidth::Indented,
        ).divided().in_block(RowBlock::ClipboardDelete)),
        PageItem::Row(row(
            RowTitle::Setting(ControlField::ClipboardMaxEntries),
            RowKind::Plain,
            RowControl::TextInput,
            LabelWidth::Column,
        ).divided()),
        PageItem::Row(row(
            RowTitle::Setting(ControlField::ClipboardAutoExpireDays),
            RowKind::Tall,
            RowControl::Slider,
            LabelWidth::Column,
        ).divided()),
        PageItem::Card(SectionTitle::ClipboardOptions),
    ]
}

/// The items of the clipboard page.
pub fn clipboard_rows() -> (r: Vec<PageItem>)
    ensures
        r@ == clipboard_items(),
{
    let mut items: Vec<PageItem> = Vec::new();
    items.push(PageItem::FirstHeading);
    items.push(PageItem::Row(switch_row(ControlField::ClipboardEnabled)));
    items.push(PageItem::Card(SectionTitle::Clipboard));
    items.push(PageItem::Heading);
    items.push(PageItem::Row(row(
        RowTitle::Setting(ControlField::ClipboardPinFollow),
        RowKind::Plain,
        RowControl::Popup,
        LabelWidth::Wide,
    )));
    items.push(PageItem::Row(row(
        RowTitle::Setting(ControlField::ClipboardPersist),
        RowKind::Plain,
        RowControl::Switch,
        LabelWidth::Wide,
    ).divided()));
    items.push(PageItem::Row(row(
        RowTitle::Setting(ControlField::ClipboardShowSourceApp),
        RowKind::Plain,
        RowControl::Switch,
        LabelWidth::Column,
    ).divided()));
    items.push(PageItem::Row(row(
        RowTitle::Setting(ControlField::ClipboardMoveUsedToTop),
        RowKind::Plain,
        RowControl::Switch,
        LabelWidth::Wide,
    ).divided()));
    items.push(PageItem::Row(switch_row(ControlField::ClipboardDeleteAfterPaste).divided()));
    items.push(PageItem::Row(row(
        RowTitle::Setting(ControlField::ClipboardClearSystemPasteboardAfterPaste),
        RowKind::Tall,
        RowControl::Switch,
        LabelWidth::Indented,
    ).divided().in_block(RowBlock::ClipboardDelete)));
    items.push(PageItem::Row(row(
        RowTitle::Setting(ControlField::ClipboardMaxEntries),
        RowKind::Plain,
        RowControl::TextInput,
        LabelWidth::Column,
    ).divided()));
    items.push(PageItem::Row(row(
        RowTitle::Setting(ControlField::ClipboardAutoExpireDays),
        RowKind::Tall,
        RowControl::Slider,
        LabelWidth::Column,
    ).divided()));
    items.push(PageItem::Card(SectionTitle::ClipboardOptions));
    assert(items@ =~= clipboard_items());
    items
}

/// The items of the window-control page.
pub open spec fn window_control_items() -> Seq<PageItem> {
    seq![
        PageItem::FirstHeading,
        PageItem::Row(switch_row(ControlField::WindowControlEnabled)),
        PageItem::Card(SectionTitle::WindowControl),
        PageItem::Heading,
        PageItem::Row(switch_row(ControlField::WindowControlUp)),
        PageItem::Row(switch_row(ControlField::WindowControlDown).divided()),
        PageItem::Row(switch_row(ControlField::WindowControlLeft).divided()),
        PageItem::Row(switch_row(ControlField::WindowControlRight).divided()),
        PageItem::Row(switch_row(ControlField::WindowControlDisplayUp).divided()),
        PageItem::Row(switch_row(ControlField::WindowControlDisplayDown).divided()),
        PageItem::Row(switch_row(ControlField::WindowControlDisplayLeft).divided()),
        PageItem::Row(switch_row(ControlField::WindowControlDisplayRight).divided()),
        PageItem::Card(SectionTitle::WindowControlShortcuts),
    ]
}

/// The items of the window-control page.
pub fn window_control_rows() -> (r: Vec<PageItem>)
    ensures
        r@ == window_control_items(),
{
    let mut items: Vec<PageItem> = Vec::new();
    items.push(PageItem::FirstHeading);
    items.push(PageItem::Row(switch_row(ControlField::WindowControlEnabled)));
    items.push(PageItem::Card(SectionTitle::WindowControl));
    items.push(PageItem::Heading);
    items.push(PageItem::Row(switch_row(ControlField::WindowControlUp)));
    items.push(PageItem::Row(switch_row(ControlField::WindowControlDown).divided()));
    items.push(PageItem::Row(switch_row(ControlField::WindowControlLeft).divided()));
    items.push(PageItem::Row(switch_row(ControlField::WindowControlRight).divided()));
    items.push(PageItem::Row(switch_row(ControlField::WindowControlDisplayUp).divided()));
    items.push(PageItem::Row(switch_row(ControlField::WindowControlDisplayDown).divided()));
    items.push(PageItem::Row(switch_row(ControlField::WindowControlDisplayLeft).divided()));
    items.push(PageItem::Row(switch_row(ControlField::WindowControlDisplayRight).divided()));
    items.push(PageItem::Card(SectionTitle::WindowControlShortcuts));
    assert(items@ =~= window_control_items());
    items
}

/// The items of the quick-actions page.
pub open spec fn quick_actions_items() -> Seq<PageItem> {
    seq![
        PageItem::FirstHeading,
        PageItem::Row(switch_row(ControlField::QuickActionsEnabled)),
        PageItem::Card(SectionTitle::QuickActions),
        PageItem::Heading,
        PageItem::Row(switch_row(ControlField::QuickActionOpenSettings)),
        PageItem::Row(switch_row(ControlField::QuickActionOpenFinder).divided()),
        PageItem::Row(switch_row(ControlField::QuickActionShowDesktop).divided()),
        PageItem::Row(switch_row(ControlField::QuickActionLockScreen).divided()),
        PageItem::Row(switch_row(ControlField::QuickActionLocatePointer).divided()),
        PageItem::Card(SectionTitle::QuickActionsShortcuts),
    ]
}

/// The items of the quick-actions page.
pub fn quick_actions_rows() -> (r: Vec<PageItem>)
    ensures
        r@ == quick_actions_items(),
{
    let mut items: Vec<PageItem> = Vec::new();
    items.push(PageItem::FirstHeading);
    items.push(PageItem::Row(switch_row(ControlField::QuickActionsEnabled)));
    items.push(PageItem::Card(SectionTitle::QuickActions));
    items.push(PageItem::Heading);
    items.push(PageItem::Row(switch_row(ControlField::QuickActionOpenSettings)));
    items.push(PageItem::Row(switch_row(ControlField::QuickActionOpenFinder).divided()));
    items.push(PageItem::Row(switch_row(ControlField::QuickActionShowDesktop).divided()));
    items.push(PageItem::Row(switch_row(ControlField::QuickActionLockScreen).divided()));
    items.push(PageItem::Row(switch_row(ControlField::QuickActionLocatePointer).divided()));
    items.push(PageItem::Card(SectionTitle::QuickActionsShortcuts));
    assert(items@ =~= quick_actions_items());
    items
}

/// The items of the application card.
pub open spec fn app_items() -> Seq<PageItem> {
    seq![
        PageItem::Heading,
        PageItem::Row(row(
            RowTitle::ViewGuide,
            RowKind::Plain,
            RowControl::ActionButton,
            LabelWidth::Column,
        )),
        PageItem::Row(row(
            RowTitle::Website,
            RowKind::Plain,
            RowControl::Link,
            LabelWidth::Column,
        ).divided()),
        PageItem::Row(row(
            RowTitle::Github,
            RowKind::Plain,
            RowControl::Link,
            LabelWidth::Column,
        ).divided()),
        PageItem::Row(row(
            RowTitle::Version,
            RowKind::Plain,
            RowControl::Value,
            LabelWidth::Column,
        ).divided()),
        PageItem::Card(SectionTitle::App),
    ]
}

/// The items of the application card.
pub fn app_rows() -> (r: Vec<PageItem>)
    ensures
        r@ == app_items(),
{
    let mut items: Vec<PageItem> = Vec::new();
    items.push(PageItem::Heading);
    items.push(PageItem::Row(row(
        RowTitle::ViewGuide,
        RowKind::Plain,
        RowControl::ActionButton,
        LabelWidth::Column,
    )));
    items.push(PageItem::Row(row(
        RowTitle::Website,
        RowKind::Plain,
        RowControl::Link,
        LabelWidth::Column,
    ).divided()));
    items.push(PageItem::Row(row(
        RowTitle::Github,
        RowKind::Plain,
        RowControl::Link,
        LabelWidth::Column,
    ).divided()));
    items.push(PageItem::Row(row(
        RowTitle::Version,
        RowKind::Plain,
        RowControl::Value,
        LabelWidth::Column,
    ).divided()));
    items.push(PageItem::Card(SectionTitle::App));
    assert(items@ =~= app_items());
    items
}

/// The items of the permissions card.
pub open spec fn permissions_items() -> Seq<PageItem> {
    seq![
        PageItem::Heading,
        PageItem::Row(row(
            RowTitle::Accessibility,
            RowKind::Plain,
            RowControl::Status,
            LabelWidth::Column,
        )),
        PageItem::Row(row(
            RowTitle::ScreenRecording,
            RowKind::Plain,
            RowControl::Status,
            LabelWidth::Column,
        ).divided()),
        PageItem::Card(SectionTitle::Permissions),
    ]
}

/// The items of the permissions card.
pub fn permissions_rows() -> (r: Vec<PageItem>)
    ensures
        r@ == permissions_items(),
{
    let mut items: Vec<PageItem> = Vec::new();
    items.push(PageItem::Heading);
    items.push(PageItem::Row(row(
        RowTitle::Accessibility,
        RowKind::Plain,
        RowControl::Status,
        LabelWidth::Column,
    )));
    items.push(PageItem::Row(row(
        RowTitle::ScreenRecording,
        RowKind::Plain,
        RowControl::Status,
        LabelWidth::Column,
    ).divided()));
    items.push(PageItem::Card(SectionTitle::Permissions));
    assert(items@ =~= permissions_items());
    items
}

/// The items of the update switches, without their card.
pub open spec fn updates_items() -> Seq<PageItem> {
    seq![
        PageItem::Heading,
        PageItem::Row(row(
            RowTitle::Setting(ControlField::UpdateAutoCheck),
            RowKind::Described,
            RowControl::Switch,
            LabelWidth::BeforeUpdateSwitch,
        )),
        PageItem::Row(row(
            RowTitle::Setting(ControlField::UpdateAutoDownload),
            RowKind::Described,
            RowControl::Switch,
            LabelWidth::BeforeUpdateSwitch,
        )),
    ]
}

/// The items of the update switches, without their card.
pub fn updates_rows() -> (r: Vec<PageItem>)
    ensures
        r@ == updates_items(),
{
    let mut items: Vec<PageItem> = Vec::new();
    items.push(PageItem::Heading);
    items.push(PageItem::Row(row(
        RowTitle::Setting(ControlField::UpdateAutoCheck),
        RowKind::Described,
        RowControl::Switch,
        LabelWidth::BeforeUpdateSwitch,
    )));
    items.push(PageItem::Row(row(
        RowTitle::Setting(ControlField::UpdateAutoDownload),
        RowKind::Described,
        RowControl::Switch,
        LabelWidth::BeforeUpdateSwitch,
    )));
    assert(items@ =~= updates_items());
    items
}

/// The lower edge of the content of a stack: that of its last card.
pub open spec fn stack_bottom(plan: StackPlan, env: PageEnv) -> int {
    plan.cursor - env.layout.card_bottom_inset
}

/// Plans the switcher page below its title, and tells where its content ends.
pub fn build_switcher_page(env: &PageEnv, start: i64) -> (r: (StackPlan, i64))
    requires
        env.valid(),
        geometry::in_range(start as int),
    ensures
        r.0.stacks(switcher_items(), *env, start as int),
        r.1 == stack_bottom(r.0, *env),
{
    let plan = stack_items(&switcher_rows(), env, start);
    let bottom = plan.cursor - env.layout.card_bottom_inset;
    (plan, bottom)
}

/// Plans the clipboard page below its title, and tells where its content ends.
pub fn build_clipboard_page(env: &PageEnv, start: i64) -> (r: (StackPlan, i64))
    requires
        env.valid(),
        geometry::in_range(start as int),
    ensures
        r.0.stacks(clipboard_items(), *env, start as int),
        r.1 == stack_bottom(r.0, *env),
{
    let plan = stack_items(&clipboard_rows(), env, start);
    let bottom = plan.cursor - env.layout.card_bottom_inset;
    (plan, bottom)
}

/// Plans the window-control page below its title, and tells where its content ends.
pub fn build_window_control_page(env: &PageEnv, start: i64) -> (r: (StackPlan, i64))
    requires
        env.valid(),
        geometry::in_range(start as int),
    ensures
        r.0.stacks(window_control_items(), *env, start as int),
        r.1 == stack_bottom(r.0, *env),
{
    let plan = stack_items(&window_control_rows(), env, start);
    let bottom = plan.cursor - env.layout.card_bottom_inset;
    (plan, bottom)
}

/// Plans the quick-actions page below its title, and tells where its content ends.
pub fn build_quick_actions_page(env: &PageEnv, start: i64) -> (r: (StackPlan, i64))
    requires
        env.valid(),
        geometry::in_range(start as int),
    ensures
        r.0.stacks(quick_actions_items(), *env, start as int),
        r.1 == stack_bottom(r.0, *env),
{
    let plan = stack_items(&quick_actions_rows(), env, start);
    let bottom = plan.cursor - env.layout.card_bottom_inset;
    (plan, bottom)
}

/// The strip that asks for missing permissions, above the general page.
#[derive(Clone, Copy, Debug, PartialEq, Eq, Structural)]
pub struct BannerPlan {
    pub frame: Rect,
    pub warning: Rect,
    pub open_button: Rect,
}

/// The height of the strip without the gap below it.
pub open spec fn banner_content_h(migration: bool) -> int {
    if migration { 60_000 } else { 48_000 }
}

/// Places the strip that asks for missing permissions. After an update that lost
/// permissions it is higher.
pub fn permission_banner(
    env: &PageEnv,
    page_x: i64,
    viewport_h: i64,
    top_padding: i64,
    migration: bool,
) -> (r: BannerPlan)
    requires
        env.valid(),
        geometry::in_range(viewport_h as int),
        geometry::in_range(top_padding as int),
    ensures
        ({
            let h = banner_content_h(migration);
            &&& r.frame.x == page_x
            &&& r.frame.top() == viewport_h - top_padding
            &&& r.frame.w == env.content_w
            &&& r.frame.h == h + 12_000
            &&& r.warning == (Rect {
                x: 12_000,
                y: 18_000,
                w: (env.content_w - 160_000) as i64,
                h: (h - 12_000) as i64,
            })
            &&& r.open_button == (Rect {
                x: (env.content_w - 150_000) as i64,
                y: (12_000 + (h - 28_000) / 2) as i64,
                w: 140_000,
                h: 28_000,
            })
        }),
{
    let content_h: i64 = if migration {
        60_000
    } else {
        48_000
    };
    let gap: i64 = 12_000;
    let h = content_h + gap;
    BannerPlan {
        frame: Rect::new(page_x, viewport_h - top_padding - h, env.content_w, h),
        warning: Rect::new(12_000, gap + 6_000, env.content_w - 160_000, content_h - 12_000),
        open_button: Rect::new(
            env.content_w - 150_000,
            gap + half(content_h - 28_000),
            140_000,
            28_000,
        ),
    }
}

/// What the strip says.
pub fn banner_warning_key(migration: bool) -> (r: &'static str)
    ensures
        r@ == if migration {
            "settings.permission_migration_warning"@
        } else {
            "settings.accessibility_warning"@
        },
{
    if migration {
        "settings.permission_migration_warning"
    } else {
        "settings.accessibility_warning"
    }
}

/// The previews of the general page.
#[derive(Clone, Copy, Debug, PartialEq, Eq, Structural)]
pub struct PreviewPlan {
    pub switcher: Rect,
    pub clipboard: Rect,
    pub switcher_caption: Rect,
    pub clipboard_caption: Rect,
    pub card: PlacedCard,
}

/// The width of one of two previews beside each other.
pub open spec fn preview_width(env: PageEnv) -> int {
    (env.content_w - 2 * env.layout.label_x - 12_000) / 2
}

/// The lower edge of the previews below a cursor.
pub open spec fn preview_y(env: PageEnv, cursor: int) -> int {
    cursor - env.layout.section_step - env.layout.row_gap - env.layout.row_h - 90_000
}

/// The previews below a cursor.
pub open spec fn previews(env: PageEnv, cursor: int) -> PreviewPlan {
    let y = preview_y(env, cursor);
    let w = preview_width(env);
    let switcher = Rect { x: env.layout.label_x, y: y as i64, w: w as i64, h: 90_000 };
    let clipboard = Rect { x: (env.layout.label_x + w + 12_000) as i64, ..switcher };
    PreviewPlan {
        switcher,
        clipboard,
        switcher_caption: Rect { y: (y + 93_000) as i64, h: 18_000, ..switcher },
        clipboard_caption: Rect { y: (y + 93_000) as i64, h: 18_000, ..clipboard },
        card: page_rows::card_between(
            SectionTitle::Preview,
            env,
            cursor - env.layout.section_step,
            y - 12_000,
        ),
    }
}

fn place_previews(env: &PageEnv, cursor: i64) -> (r: PreviewPlan)
    requires
        env.valid(),
        -2_000_000_000_000 <= cursor <= 2_000_000_000_000,
    ensures
        r == previews(*env, cursor as int),
        r.switcher.y == preview_y(*env, cursor as int),
{
    let l = env.layout;
    let header = l.next_section_cursor(cursor);
    let y = l.next_row_cursor(header, l.row_h) - 90_000;
    let w = half(env.content_w - 2 * l.label_x - 12_000);
    let right_x = l.label_x + w + 12_000;
    let bottom = y - 12_000;
    PreviewPlan {
        switcher: Rect::new(l.label_x, y, w, 90_000),
        clipboard: Rect::new(right_x, y, w, 90_000),
        switcher_caption: Rect::new(l.label_x, y + 93_000, w, 18_000),
        clipboard_caption: Rect::new(right_x, y + 93_000, w, 18_000),
        card: PlacedCard {
            title: SectionTitle::Preview,
            frame: Rect::new(
                6_000,
                bottom,
                env.content_w - 12_000,
                l.card_top(header) - bottom,
            ),
        },
    }
}

/// The general page: the look, its previews, and the rest.
#[derive(Debug)]
pub struct GeneralPlan {
    pub appearance: StackPlan,
    pub preview: PreviewPlan,
    pub rest: StackPlan,
}

/// Plans the general page below its title, and tells where its content ends.
pub fn build_general_page(env: &PageEnv, start: i64) -> (r: (GeneralPlan, i64))
    requires
        env.valid(),
        geometry::in_range(start as int),
    ensures
        r.0.appearance.stacks(appearance_items(), *env, start as int),
        r.0.preview == previews(*env, r.0.appearance.cursor as int),
        r.0.rest.stacks(
            general_items(),
            *env,
            preview_y(*env, r.0.appearance.cursor as int),
        ),
        r.1 == stack_bottom(r.0.rest, *env),
{
    let appearance = stack_items(&appearance_rows(), env, start);
    let preview = place_previews(env, appearance.cursor);
    let rest = stack_items(&general_rows(), env, preview.switcher.y);
    let bottom = rest.cursor - env.layout.card_bottom_inset;
    (GeneralPlan { appearance, preview, rest }, bottom)
}

/// The empty table of mappings.
#[derive(Clone, Copy, Debug, PartialEq, Eq, Structural)]
pub struct MappingCardPlan {
    pub card: Rect,
    /// In the card, from its top down, as everything below.
    pub panel: Rect,
    pub button_heading: Rect,
    pub action_heading: Rect,
    pub heading_line: Rect,
    pub empty_hint: Rect,
    pub add_button: Rect,
}

/// The table of mappings below a cursor, with room for three rows.
pub open spec fn mapping_card(env: PageEnv, m: MappingMetrics, cursor: int) -> MappingCardPlan {
    let w = env.content_w - 12_000;
    let panel_h = m.header_h + 3 * m.row_h;
    let card_h = m.panel_top + panel_h + m.action_top + m.action_h + m.pad_bottom;
    let left = m.panel_x + m.cell_x;
    MappingCardPlan {
        card: Rect {
            x: 6_000,
            y: (cursor - 24_000 - card_h) as i64,
            w: w as i64,
            h: card_h as i64,
        },
        panel: Rect {
            x: m.panel_x,
            y: m.panel_top,
            w: (w - 2 * m.panel_x) as i64,
            h: panel_h as i64,
        },
        button_heading: Rect {
            x: left as i64,
            y: (m.panel_top + 7_000) as i64,
            w: 120_000,
            h: 18_000,
        },
        action_heading: Rect {
            x: (left + 80_000) as i64,
            y: (m.panel_top + 7_000) as i64,
            w: 130_000,
            h: 18_000,
        },
        heading_line: Rect {
            x: left as i64,
            y: (m.panel_top + m.header_h - 1_000) as i64,
            w: (w - 2 * left) as i64,
            h: 1_000,
        },
        empty_hint: Rect {
            x: left as i64,
            y: (m.panel_top + m.header_h + (3 * m.row_h) / 2 - 9_000) as i64,
            w: (w - 2 * left) as i64,
            h: 18_000,
        },
        add_button: Rect {
            x: m.panel_x,
            y: (m.panel_top + panel_h + m.action_top) as i64,
            w: (w - 2 * m.panel_x) as i64,
            h: m.action_h,
        },
    }
}

fn place_mapping_card(env: &PageEnv, m: MappingMetrics, cursor: i64) -> (r: MappingCardPlan)
    requires
        env.valid(),
        m.valid(),
        -2_000_000_000_000 <= cursor <= 2_000_000_000_000,
    ensures
        r == mapping_card(*env, m, cursor as int),
{
    let w = env.content_w - 12_000;
    let panel_h = m.header_h + 3 * m.row_h;
    let card_h = m.panel_top + panel_h + m.action_top + m.action_h + m.pad_bottom;
    let left = m.panel_x + m.cell_x;
    MappingCardPlan {
        card: Rect::new(6_000, cursor - 24_000 - card_h, w, card_h),
        panel: Rect::new(m.panel_x, m.panel_top, w - 2 * m.panel_x, panel_h),
        button_heading: Rect::new(left, m.panel_top + 7_000, 120_000, 18_000),
        action_heading: Rect::new(left + 80_000, m.panel_top + 7_000, 130_000, 18_000),
        heading_line: Rect::new(left, m.panel_top + m.header_h - 1_000, w - 2 * left, 1_000),
        empty_hint: Rect::new(
            left,
            m.panel_top + m.header_h + half(3 * m.row_h) - 9_000,
            w - 2 * left,
            18_000,
        ),
        add_button: Rect::new(
            m.panel_x,
            m.panel_top + panel_h + m.action_top,
            w - 2 * m.panel_x,
            m.action_h,
        ),
    }
}

/// Plans the mouse page below its title, and tells where its content ends.
pub fn build_mouse_page(env: &PageEnv, m: MappingMetrics, start: i64) -> (r: (
    StackPlan,
    MappingCardPlan,
    i64,
))
    requires
        env.valid(),
        m.valid(),
        geometry::in_range(start as int),
    ensures
        r.0.stacks(mouse_items(), *env, start as int),
        r.1 == mapping_card(*env, m, r.0.cursor as int),
        r.2 == r.1.card.y,
{
    let plan = stack_items(&mouse_rows(), env, start);
    let table = place_mapping_card(env, m, plan.cursor);
    let bottom = table.card.y;
    (plan, table, bottom)
}

/// The table starts with the height and the parts that it has with up to three rows.
pub proof fn mapping_card_fits_three_rows(env: PageEnv, m: MappingMetrics, cursor: int, rows: int)
    requires
        env.valid(),
        m.valid(),
        0 <= m.row_h,
        0 <= rows <= 3,
        -2_000_000_000_000 <= cursor <= 2_000_000_000_000,
    ensures
        mapping_card(env, m, cursor).card.h == m.card_h(rows),
        mapping_card(env, m, cursor).panel.h == m.panel_h(rows),
        mapping_card(env, m, cursor).add_button.y == m.panel_top + m.panel_h(rows) + m.action_top,
{
    let h = m.row_h as int;
    assert(rows * h <= 3 * h) by (nonlinear_arith)
        requires
            rows <= 3,
            0 <= h,
    ;
}

/// The head of the about page.
#[derive(Clone, Copy, Debug, PartialEq, Eq, Structural)]
pub struct AboutHeader {
    pub icon: Point,
    pub title: Rect,
    pub subtitle: Rect,
    /// The area that counts clicks.
    pub hit_area: Rect,
}

/// What stands below the update switches.
#[derive(Clone, Copy, Debug, PartialEq, Eq, Structural)]
pub struct UpdateArea {
    /// The line between the switches.
    pub switch_line: Rect,
    pub check_button: Rect,
    /// Where the progress of an update replaces the button; closed at first.
    pub host: Rect,
    pub card: PlacedCard,
    /// The line above the progress of an update; hidden at first.
    pub host_line: Rect,
}

/// The about page.
#[derive(Debug)]
pub struct AboutPlan {
    pub header: AboutHeader,
    pub app: StackPlan,
    pub permissions: StackPlan,
    pub accessibility_button: Rect,
    pub screen_recording_button: Rect,
    pub updates: StackPlan,
    pub update_area: UpdateArea,
}

/// The head of the about page, from the height of its document.
pub open spec fn about_header(env: PageEnv, doc_h: int) -> AboutHeader {
    let top = doc_h - 68_000;
    let text_x = env.layout.label_x + 73_000;
    let text_w = env.content_w - 73_000 - env.layout.label_x;
    AboutHeader {
        icon: Point { x: env.layout.label_x, y: (top - 58_000) as i64 },
        title: Rect { x: text_x as i64, y: (top - 33_000) as i64, w: text_w as i64, h: 28_000 },
        subtitle: Rect { x: text_x as i64, y: (top - 53_000) as i64, w: text_w as i64, h: 18_000 },
        hit_area: Rect {
            x: 6_000,
            y: (top - 64_000) as i64,
            w: (env.content_w - 12_000) as i64,
            h: 66_000,
        },
    }
}

/// The button of a permission, centred in its row at the right edge.
pub open spec fn permission_button(env: PageEnv, row_y: int) -> Rect {
    Rect {
        x: (env.layout.control_x + env.layout.control_w - env.action_button.w) as i64,
        y: (row_y + (env.layout.described_row_h - env.action_button.h) / 2) as i64,
        w: env.action_button.w,
        h: env.action_button.h,
    }
}

/// What stands below the update switches: the button is directly below the second one,
/// and the card ends ten points below it.
pub open spec fn update_area(env: PageEnv, header: int, second_row_y: int) -> UpdateArea {
    let first_row_y = second_row_y + env.layout.row_gap + env.layout.described_row_h;
    let button_y = second_row_y - 38_000;
    let w = env.content_w - 2 * env.layout.label_x;
    UpdateArea {
        switch_line: layout::separator_line(0, first_row_y, env.content_w as int),
        check_button: Rect { x: env.layout.label_x, y: button_y as i64, w: w as i64, h: 38_000 },
        host: Rect { x: env.layout.label_x, y: button_y as i64, w: w as i64, h: 0 },
        card: page_rows::card_between(SectionTitle::Updates, env, header, button_y - 10_000),
        host_line: layout::separator_line(0, second_row_y, env.content_w as int),
    }
}

fn place_update_area(env: &PageEnv, header: i64, second_row_y: i64) -> (r: UpdateArea)
    requires
        env.valid(),
        -4_000_000_000_000 <= header <= 4_000_000_000_000,
        -4_000_000_000_000 <= second_row_y <= 4_000_000_000_000,
    ensures
        r == update_area(*env, header as int, second_row_y as int),
        r.card.frame.y == second_row_y - 48_000,
{
    let l = env.layout;
    let first_row_y = second_row_y + l.row_gap + l.described_row_h;
    let button_y = second_row_y - 38_000;
    let w = env.content_w - 2 * l.label_x;
    let bottom = button_y - 10_000;
    UpdateArea {
        switch_line: add_row_separator(0, first_row_y, env.content_w),
        check_button: Rect::new(l.label_x, button_y, w, 38_000),
        host: Rect::new(l.label_x, button_y, w, 0),
        card: PlacedCard {
            title: SectionTitle::Updates,
            frame: Rect::new(
                6_000,
                bottom,
                env.content_w - 12_000,
                header - l.card_header_gap - bottom,
            ),
        },
        host_line: add_row_separator(0, second_row_y, env.content_w),
    }
}

fn place_about_header(env: &PageEnv, doc_h: i64) -> (r: AboutHeader)
    requires
        env.valid(),
        geometry::in_range(doc_h as int),
    ensures
        r == about_header(*env, doc_h as int),
{
    let top = doc_h - 68_000;
    let text_x = env.layout.label_x + 73_000;
    let text_w = env.content_w - 73_000 - env.layout.label_x;
    AboutHeader {
        icon: Point { x: env.layout.label_x, y: top - 58_000 },
        title: Rect::new(text_x, top - 33_000, text_w, 28_000),
        subtitle: Rect::new(text_x, top - 53_000, text_w, 18_000),
        hit_area: Rect::new(6_000, top - 64_000, env.content_w - 12_000, 66_000),
    }
}

/// Plans the about page from the height of its document, and tells where its content
/// ends. Its cards start below the one before them.
pub fn build_about_page(env: &PageEnv, doc_h: i64) -> (r: (AboutPlan, i64))
    requires
        env.valid(),
        geometry::in_range(doc_h as int),
    ensures
        ({
            let p = r.0;
            let inset = env.layout.card_bottom_inset;
            &&& p.header == about_header(*env, doc_h as int)
            &&& p.app.stacks(app_items(), *env, doc_h - 156_000)
            &&& p.permissions.stacks(permissions_items(), *env, p.app.cursor - inset)
            &&& p.screen_recording_button == permission_button(*env, p.permissions.cursor as int)
            &&& p.accessibility_button == permission_button(
                *env,
                p.permissions.cursor + env.layout.row_gap + env.layout.described_row_h,
            )
            &&& p.updates.stacks(updates_items(), *env, p.permissions.cursor - inset)
            &&& p.update_area == update_area(
                *env,
                p.updates.header as int,
                p.updates.cursor as int,
            )
            &&& r.1 == p.update_area.card.frame.y
        }),
{
    let header = place_about_header(env, doc_h);
    let l = env.layout;
    let app = stack_items(&app_rows(), env, doc_h - 68_000 - 88_000);
    let permissions = stack_items(&permissions_rows(), env, app.cursor - l.card_bottom_inset);
    let center = half(l.described_row_h - env.action_button.h);
    let first_row_y = permissions.cursor + l.row_gap + l.described_row_h;
    let accessibility_button = row_action_button(env, first_row_y + center);
    let screen_recording_button = row_action_button(env, permissions.cursor + center);
    let updates = stack_items(&updates_rows(), env, permissions.cursor - l.card_bottom_inset);
    let update_area = place_update_area(env, updates.header, updates.cursor);
    let bottom = update_area.card.frame.y;
    (
        AboutPlan {
            header,
            app,
            permissions,
            accessibility_button,
            screen_recording_button,
            updates,
            update_area,
        },
        bottom,
    )
}

/// The stacks of all pages are well formed. Only the card round the update switches is
/// not part of a stack, since it holds a button as well.
pub proof fn pages_are_well_formed()
    ensures
        page_rows::well_formed(appearance_items()),
        page_rows::well_formed(general_items()),
        page_rows::well_formed(switcher_items()),
        page_rows::well_formed(mouse_items()),
        page_rows::well_formed(clipboard_items()),
        page_rows::well_formed(window_control_items()),
        page_rows::well_formed(quick_actions_items()),
        page_rows::well_formed(app_items()),
        page_rows::well_formed(permissions_items()),
{
}

/// Hiding a block of rows gives back exactly what its rows took.
pub proof fn blocks_have_the_height_of_their_rows(env: PageEnv)
    requires
        env.valid(),
    ensures
        page_rows::block_steps(
            switcher_items(),
            env,
            RowBlock::ThumbnailOnly,
            switcher_items().len() as int,
        ) == page_rows::block_height(RowBlock::ThumbnailOnly, env),
        page_rows::block_steps(
            mouse_items(),
            env,
            RowBlock::LineCount,
            mouse_items().len() as int,
        ) == page_rows::block_height(RowBlock::LineCount, env),
        page_rows::block_steps(
            mouse_items(),
            env,
            RowBlock::PointerAccel,
            mouse_items().len() as int,
        ) == page_rows::block_height(RowBlock::PointerAccel, env),
        page_rows::block_steps(
            clipboard_items(),
            env,
            RowBlock::ClipboardDelete,
            clipboard_items().len() as int,
        ) == page_rows::block_height(RowBlock::ClipboardDelete, env),
{
    reveal_with_fuel(page_rows::block_steps, 22);
}

/// The number of pages.
pub const PAGE_COUNT: usize = 7;

/// The name of a page.
pub open spec fn page_name_of(page: int) -> Seq<char> {
    if page == 0 {
        "general"@
    } else if page == 1 {
        "switcher"@
    } else if page == 2 {
        "mouse"@
    } else if page == 3 {
        "clipboard"@
    } else if page == 4 {
        "window_control"@
    } else if page == 5 {
        "quick_actions"@
    } else {
        "about"@
    }
}

/// The name of a page.
pub fn page_name(page: usize) -> (r: &'static str)
    requires
        page < PAGE_COUNT,
    ensures
        r@ == page_name_of(page as int),
{
    match page {
        0 => "general",
        1 => "switcher",
        2 => "mouse",
        3 => "clipboard",
        4 => "window_control",
        5 => "quick_actions",
        _ => "about",
    }
}

/// The restore control of a page whose content ends at `bottom`.
pub open spec fn page_restore(bottom: int, content_w: int) -> RestoreLayout {
    let width = content_w - 12_000;
    let row = Rect { x: 8_000, y: 6_000, w: (width - 16_000) as i64, h: 30_000 };
    RestoreLayout {
        trigger: row,
        confirm: Rect { y: 54_000, ..row },
        cancel: row,
        surface: Rect {
            x: 14_000,
            y: (bottom - 10_000) as i64,
            w: (width - 16_000) as i64,
            h: 30_000,
        },
        container: Rect { x: 6_000, y: (bottom - 16_000) as i64, w: width as i64, h: 42_000 },
        separator: None,
    }
}

/// Places the restore control of each page at the end of its content.
pub fn finalize_settings_pages(bottoms: &Vec<i64>, content_w: i64) -> (r: Vec<RestoreLayout>)
    requires
        geometry::in_range(content_w as int),
        forall|i: int| 0 <= i < bottoms@.len() ==> geometry::near(#[trigger] bottoms@[i] as int),
    ensures
        r@ == Seq::new(
            bottoms@.len(),
            |i: int| page_restore(bottoms@[i] as int, content_w as int),
        ),
{
    let mut out: Vec<RestoreLayout> = Vec::new();
    let mut i: usize = 0;
    while i < bottoms.len()
        invariant
            i <= bottoms@.len(),
            geometry::in_range(content_w as int),
            forall|k: int|
                0 <= k < bottoms@.len() ==> geometry::near(#[trigger] bottoms@[k] as int),
            out@ =~= Seq::new(
                i as nat,
                |k: int| page_restore(bottoms@[k] as int, content_w as int),
            ),
        decreases bottoms@.len() - i,
    {
        assert(geometry::near(bottoms@[i as int] as int));
        out.push(
            RestoreDefaultsControl::build_for_page(
                6_000,
                bottoms[i] - 16_000,
                content_w - 12_000,
            ),
        );
        i += 1;
    }
    out
}

/// The two previews stand beside each other, 12 points apart and equally large, between the
/// columns of labels on both sides; their captions stand 3 points above them. The card round
/// them starts below its heading and ends 12 points below them.
pub proof fn previews_stand_side_by_side(env: PageEnv, cursor: int)
    requires
        env.valid(),
        -2_000_000_000_000 <= cursor <= 2_000_000_000_000,
    ensures
        ({
            let p = previews(env, cursor);
            let header = cursor - env.layout.section_step;
            &&& p.switcher.x == env.layout.label_x && p.switcher.h == 90_000
            &&& p.clipboard.x - p.switcher.right() == 12_000
            &&& p.clipboard.y == p.switcher.y && p.clipboard.w == p.switcher.w && p.clipboard.h
                == p.switcher.h
            &&& 0 <= env.content_w - env.layout.label_x - p.clipboard.right() <= 1
            &&& p.switcher_caption.y - p.switcher.top() == 3_000
            &&& p.switcher_caption.x == p.switcher.x && p.switcher_caption.w == p.switcher.w
            &&& p.clipboard_caption.x == p.clipboard.x && p.clipboard_caption.w == p.clipboard.w
            &&& p.clipboard_caption.y == p.switcher_caption.y
            &&& p.switcher_caption.h == 18_000 && p.clipboard_caption.h == 18_000
            &&& header - p.switcher.top() == env.layout.row_gap + env.layout.row_h
            &&& p.card.title == SectionTitle::Preview
            &&& p.switcher.y - p.card.frame.y == 12_000
            &&& header - p.card.frame.top() == env.layout.card_header_gap
            &&& p.card.frame.x == 6_000 && p.card.frame.right() == env.content_w - 6_000
        }),
{
}

/// Before there are mappings, the table holds its two headings side by side, the line below
/// them, a hint in the middle of the empty rows, and the button for a new mapping; everything
/// lies in the card, and the card starts 24 points below what is above it.
pub proof fn empty_table_has_its_parts(env: PageEnv, m: MappingMetrics, cursor: int)
    requires
        env.valid(),
        m.valid(),
        -2_000_000_000_000 <= cursor <= 2_000_000_000_000,
    ensures
        ({
            let t = mapping_card(env, m, cursor);
            let left = m.panel_x + m.cell_x;
            &&& t.card.x == 6_000 && t.card.right() == env.content_w - 6_000
            &&& cursor - t.card.top() == 24_000
            &&& t.panel.x == m.panel_x && t.panel.right() == t.card.w - m.panel_x
            &&& t.panel.y == m.panel_top && t.panel.h == m.header_h + 3 * m.row_h
            &&& t.button_heading.x == left && t.action_heading.x == left + 80_000
            &&& t.button_heading.y == m.panel_top + 7_000 && t.action_heading.y
                == t.button_heading.y
            &&& t.button_heading.h == 18_000 && t.action_heading.h == 18_000
            &&& t.button_heading.w == 120_000 && t.action_heading.w == 130_000
            &&& t.heading_line.top() == m.panel_top + m.header_h && t.heading_line.h == 1_000
            &&& t.heading_line.x == left && t.heading_line.right() == t.card.w - left
            &&& t.empty_hint.x == left && t.empty_hint.right() == t.card.w - left
            &&& t.empty_hint.h == 18_000
            &&& -1 <= t.empty_hint.twice_mid_y() - (2 * (m.panel_top + m.header_h) + 3 * m.row_h)
                <= 0
            &&& t.add_button.x == m.panel_x && t.add_button.w == t.panel.w
            &&& t.add_button.y - t.panel.top() == m.action_top && t.add_button.h == m.action_h
            &&& t.card.h - t.add_button.top() == m.pad_bottom
        }),
{
}

/// The head of the about page has the icon at the left, title and subtitle beside it, one
/// above the other, and counts clicks over its whole width.
pub proof fn about_head_has_its_parts(env: PageEnv, doc_h: int)
    requires
        env.valid(),
        geometry::in_range(doc_h),
    ensures
        ({
            let h = about_header(env, doc_h);
            &&& h.icon.x == env.layout.label_x && doc_h - h.icon.y == 126_000
            &&& h.title.x == h.icon.x + 73_000 && h.title.right() == env.content_w
            &&& h.title.h == 28_000 && doc_h - h.title.top() == 73_000
            &&& h.subtitle.x == h.title.x && h.subtitle.w == h.title.w
            &&& h.subtitle.h == 18_000 && h.title.y - h.subtitle.top() == 2_000
            &&& h.hit_area.x == 6_000 && h.hit_area.right() == env.content_w - 6_000
            &&& doc_h - h.hit_area.top() == 66_000 && h.hit_area.h == 66_000
            &&& h.hit_area.y <= h.icon.y && h.title.top() <= h.hit_area.top()
        }),
{
}

/// The button of a permission ends with the control column and is centred in its row.
pub proof fn permission_buttons_are_centred(env: PageEnv, row_y: int)
    requires
        env.valid(),
        -4_000_000_000_000 <= row_y <= 4_000_000_000_000,
    ensures
        ({
            let b = permission_button(env, row_y);
            &&& b.right() == env.layout.control_x + env.layout.control_w
            &&& b.w == env.action_button.w && b.h == env.action_button.h
            &&& -1 <= b.twice_mid_y() - (2 * row_y + 54_000) <= 0
        }),
{
}

/// Below the second update switch the button fills the width between the label columns; the
/// card ends 10 points below it. The progress of an update starts closed, at the lower edge of
/// the button, and the lines stand between the switches and above the button.
pub proof fn update_button_follows_the_switches(env: PageEnv, header: int, second_row_y: int)
    requires
        env.valid(),
        -4_000_000_000_000 <= header <= 4_000_000_000_000,
        -4_000_000_000_000 <= second_row_y <= 4_000_000_000_000,
    ensures
        ({
            let a = update_area(env, header, second_row_y);
            &&& a.check_button.top() == second_row_y && a.check_button.h == 38_000
            &&& a.check_button.x == env.layout.label_x && a.check_button.right() == env.content_w
                - env.layout.label_x
            &&& a.host.h == 0 && a.host.y == a.check_button.y
            &&& a.host.x == a.check_button.x && a.host.w == a.check_button.w
            &&& a.check_button.y - a.card.frame.y == 10_000
            &&& header - a.card.frame.top() == env.layout.card_header_gap
            &&& a.card.title == SectionTitle::Updates
            &&& a.switch_line.y == second_row_y + env.layout.row_gap + 54_000
            &&& a.host_line.y == second_row_y
            &&& a.switch_line.x == 6_000 && a.host_line.x == 6_000
            &&& a.switch_line.h == 1_000 && a.host_line.h == 1_000
        }),
{
}

/// The strip for missing permissions is 12 points higher when it also has to explain that an
/// update lost them.
pub proof fn migration_strip_is_higher()
    ensures
        banner_content_h(false) == 48_000,
        banner_content_h(true) - banner_content_h(false) == 12_000,
{
}

/// The restore control of a page stands at the end of its content, as wide as the cards. Its
/// trigger is inset by 8 points at the sides; confirming and cancelling have the same size.
pub proof fn page_restore_stands_at_the_end(bottom: int, content_w: int)
    requires
        geometry::near(bottom),
        geometry::in_range(content_w),
    ensures
        ({
            let r = page_restore(bottom, content_w);
            &&& r.container.x == 6_000 && r.container.right() == content_w - 6_000
            &&& bottom - r.container.y == 16_000 && r.container.h == 42_000
            &&& r.trigger.x == 8_000 && r.container.w - r.trigger.right() == 8_000
            &&& r.trigger.y == 6_000 && r.trigger.h == 30_000
            &&& r.cancel == r.trigger
            &&& r.confirm.y == 54_000
            &&& r.confirm.x == r.trigger.x && r.confirm.w == r.trigger.w && r.confirm.h
                == r.trigger.h
            &&& r.surface.x == r.container.x + r.trigger.x
            &&& r.surface.y == r.container.y + r.trigger.y
            &&& r.surface.w == r.trigger.w && r.surface.h == r.trigger.h
            &&& r.separator is None
        }),
{
}

/// A stack ends the inset of a card below its last row.
pub proof fn stacks_end_below_their_last_row(plan: StackPlan, env: PageEnv)
    ensures
        plan.cursor - stack_bottom(plan, env) == env.layout.card_bottom_inset,
{
}

} // verus!
