//! What stands on the pages: every row has one place, one control and one card.
use vstd::prelude::*;

use crate::dispatch::ControlField;
use crate::layout::RowKind;
use crate::page_rows::{
    LabelWidth, PageEnv, PageItem, PageRow, RowBlock, RowControl, RowDivider, RowTitle,
    SectionTitle, StackPlan,
};
#[allow(unused_imports)]
use crate::{dispatch, page_rows, pages};

verus! {

/// The number of stacks that the pages are made of.
pub const STACK_COUNT: usize = 10;

/// The stacks of the pages: the general page has two and the about page three, the others
/// one each.
pub open spec fn stack_of(n: int) -> Seq<PageItem> {
    if n == 0 {
        pages::appearance_items()
    } else if n == 1 {
        pages::general_items()
    } else if n == 2 {
        pages::switcher_items()
    } else if n == 3 {
        pages::mouse_items()
    } else if n == 4 {
        pages::clipboard_items()
    } else if n == 5 {
        pages::window_control_items()
    } else if n == 6 {
        pages::quick_actions_items()
    } else if n == 7 {
        pages::app_items()
    } else if n == 8 {
        pages::permissions_items()
    } else {
        pages::updates_items()
    }
}

/// The stack that a row belongs to.
pub open spec fn stack_with(title: RowTitle) -> int {
    match title {
        RowTitle::Setting(ControlField::Theme) => 0,
        RowTitle::Setting(ControlField::GlassStyle) => 0,
        RowTitle::Setting(ControlField::GlassTint) => 0,
        RowTitle::Setting(ControlField::Locale) => 1,
        RowTitle::Setting(ControlField::LogLevel) => 1,
        RowTitle::ExportLogs => 1,
        RowTitle::Setting(ControlField::LaunchAtLogin) => 1,
        RowTitle::Setting(ControlField::WindowsEnabled) => 2,
        RowTitle::Setting(ControlField::ShowMinimized) => 2,
        RowTitle::Setting(ControlField::ThumbnailsEnabled) => 2,
        RowTitle::Setting(ControlField::FocusedThumbnailPrewarm) => 2,
        RowTitle::Setting(ControlField::ShowAppNameInCards) => 2,
        RowTitle::Setting(ControlField::CardTextSize) => 2,
        RowTitle::Setting(ControlField::StatusBarTextSize) => 2,
        RowTitle::Setting(ControlField::OverlayPosition) => 2,
        RowTitle::Setting(ControlField::ActivationMode) => 2,
        RowTitle::Setting(ControlField::CornerRadius) => 2,
        RowTitle::Setting(ControlField::Modifier) => 2,
        RowTitle::Setting(ControlField::MouseEnabled) => 3,
        RowTitle::Device => 3,
        RowTitle::Setting(ControlField::ScrollMode) => 3,
        RowTitle::Setting(ControlField::LineCount) => 3,
        RowTitle::Setting(ControlField::ReverseScroll) => 3,
        RowTitle::Setting(ControlField::DisablePointerAccel) => 3,
        RowTitle::Setting(ControlField::PointerAcceleration) => 3,
        RowTitle::Setting(ControlField::MappingEnabled) => 3,
        RowTitle::Setting(ControlField::ClipboardEnabled) => 4,
        RowTitle::Setting(ControlField::ClipboardPinFollow) => 4,
        RowTitle::Setting(ControlField::ClipboardPersist) => 4,
        RowTitle::Setting(ControlField::ClipboardShowSourceApp) => 4,
        RowTitle::Setting(ControlField::ClipboardMoveUsedToTop) => 4,
        RowTitle::Setting(ControlField::ClipboardDeleteAfterPaste) => 4,
        RowTitle::Setting(ControlField::ClipboardClearSystemPasteboardAfterPaste) => 4,
        RowTitle::Setting(ControlField::ClipboardMaxEntries) => 4,
        RowTitle::Setting(ControlField::ClipboardAutoExpireDays) => 4,
        RowTitle::Setting(ControlField::WindowControlEnabled) => 5,
        RowTitle::Setting(ControlField::WindowControlUp) => 5,
        RowTitle::Setting(ControlField::WindowControlDown) => 5,
        RowTitle::Setting(ControlField::WindowControlLeft) => 5,
        RowTitle::Setting(ControlField::WindowControlRight) => 5,
        RowTitle::Setting(ControlField::WindowControlDisplayUp) => 5,
        RowTitle::Setting(ControlField::WindowControlDisplayDown) => 5,
        RowTitle::Setting(ControlField::WindowControlDisplayLeft) => 5,
        RowTitle::Setting(ControlField::WindowControlDisplayRight) => 5,
        RowTitle::Setting(ControlField::QuickActionsEnabled) => 6,
        RowTitle::Setting(ControlField::QuickActionOpenSettings) => 6,
        RowTitle::Setting(ControlField::QuickActionOpenFinder) => 6,
        RowTitle::Setting(ControlField::QuickActionShowDesktop) => 6,
        RowTitle::Setting(ControlField::QuickActionLockScreen) => 6,
        RowTitle::Setting(ControlField::QuickActionLocatePointer) => 6,
        RowTitle::ViewGuide => 7,
        RowTitle::Website => 7,
        RowTitle::Github => 7,
        RowTitle::Version => 7,
        RowTitle::Accessibility => 8,
        RowTitle::ScreenRecording => 8,
        RowTitle::Setting(ControlField::UpdateAutoCheck) => 9,
        RowTitle::Setting(ControlField::UpdateAutoDownload) => 9,
    }
}

/// The place of a row in its stack, with headings and cards counted.
pub open spec fn place_of(title: RowTitle) -> int {
    match title {
        RowTitle::Setting(ControlField::Theme) => 1,
        RowTitle::Setting(ControlField::Locale) => 1,
        RowTitle::Setting(ControlField::WindowsEnabled) => 1,
        RowTitle::Setting(ControlField::MouseEnabled) => 1,
        RowTitle::Setting(ControlField::ClipboardEnabled) => 1,
        RowTitle::Setting(ControlField::WindowControlEnabled) => 1,
        RowTitle::Setting(ControlField::QuickActionsEnabled) => 1,
        RowTitle::ViewGuide => 1,
        RowTitle::Accessibility => 1,
        RowTitle::Setting(ControlField::UpdateAutoCheck) => 1,
        RowTitle::Setting(ControlField::GlassStyle) => 2,
        RowTitle::Website => 2,
        RowTitle::ScreenRecording => 2,
        RowTitle::Setting(ControlField::UpdateAutoDownload) => 2,
        RowTitle::Setting(ControlField::GlassTint) => 3,
        RowTitle::Github => 3,
        RowTitle::Setting(ControlField::LogLevel) => 4,
        RowTitle::Setting(ControlField::ShowMinimized) => 4,
        RowTitle::Device => 4,
        RowTitle::Setting(ControlField::ClipboardPinFollow) => 4,
        RowTitle::Setting(ControlField::WindowControlUp) => 4,
        RowTitle::Setting(ControlField::QuickActionOpenSettings) => 4,
        RowTitle::Version => 4,
        RowTitle::ExportLogs => 5,
        RowTitle::Setting(ControlField::ThumbnailsEnabled) => 5,
        RowTitle::Setting(ControlField::ScrollMode) => 5,
        RowTitle::Setting(ControlField::ClipboardPersist) => 5,
        RowTitle::Setting(ControlField::WindowControlDown) => 5,
        RowTitle::Setting(ControlField::QuickActionOpenFinder) => 5,
        RowTitle::Setting(ControlField::LaunchAtLogin) => 8,
        RowTitle::Setting(ControlField::CardTextSize) => 8,
        RowTitle::Setting(ControlField::ClipboardDeleteAfterPaste) => 8,
        RowTitle::Setting(ControlField::WindowControlDisplayUp) => 8,
        RowTitle::Setting(ControlField::QuickActionLocatePointer) => 8,
        RowTitle::Setting(ControlField::FocusedThumbnailPrewarm) => 6,
        RowTitle::Setting(ControlField::LineCount) => 6,
        RowTitle::Setting(ControlField::ClipboardShowSourceApp) => 6,
        RowTitle::Setting(ControlField::WindowControlLeft) => 6,
        RowTitle::Setting(ControlField::QuickActionShowDesktop) => 6,
        RowTitle::Setting(ControlField::ShowAppNameInCards) => 7,
        RowTitle::Setting(ControlField::ClipboardMoveUsedToTop) => 7,
        RowTitle::Setting(ControlField::WindowControlRight) => 7,
        RowTitle::Setting(ControlField::QuickActionLockScreen) => 7,
        RowTitle::Setting(ControlField::StatusBarTextSize) => 9,
        RowTitle::Setting(ControlField::ReverseScroll) => 9,
        RowTitle::Setting(ControlField::ClipboardClearSystemPasteboardAfterPaste) => 9,
        RowTitle::Setting(ControlField::WindowControlDisplayDown) => 9,
        RowTitle::Setting(ControlField::OverlayPosition) => 10,
        RowTitle::Setting(ControlField::ClipboardMaxEntries) => 10,
        RowTitle::Setting(ControlField::WindowControlDisplayLeft) => 10,
        RowTitle::Setting(ControlField::ActivationMode) => 11,
        RowTitle::Setting(ControlField::ClipboardAutoExpireDays) => 11,
        RowTitle::Setting(ControlField::WindowControlDisplayRight) => 11,
        RowTitle::Setting(ControlField::CornerRadius) => 12,
        RowTitle::Setting(ControlField::DisablePointerAccel) => 12,
        RowTitle::Setting(ControlField::Modifier) => 15,
        RowTitle::Setting(ControlField::PointerAcceleration) => 13,
        RowTitle::Setting(ControlField::MappingEnabled) => 16,
    }
}

/// What a row is used with: whatever is on or off has a switch, a choice a select, a
/// number that is set roughly a slider, and one that is typed an input.
pub open spec fn control_for(title: RowTitle) -> RowControl {
    match title {
        RowTitle::Setting(ControlField::Theme) => RowControl::Popup,
        RowTitle::Setting(ControlField::GlassStyle) => RowControl::Popup,
        RowTitle::Setting(ControlField::Locale) => RowControl::Popup,
        RowTitle::Setting(ControlField::LogLevel) => RowControl::Popup,
        RowTitle::Setting(ControlField::ThumbnailsEnabled) => RowControl::Popup,
        RowTitle::Setting(ControlField::OverlayPosition) => RowControl::Popup,
        RowTitle::Setting(ControlField::ActivationMode) => RowControl::Popup,
        RowTitle::Setting(ControlField::Modifier) => RowControl::Popup,
        RowTitle::Device => RowControl::Popup,
        RowTitle::Setting(ControlField::ScrollMode) => RowControl::Popup,
        RowTitle::Setting(ControlField::ClipboardPinFollow) => RowControl::Popup,
        RowTitle::Setting(ControlField::GlassTint) => RowControl::ColorWell,
        RowTitle::ExportLogs => RowControl::ActionButton,
        RowTitle::ViewGuide => RowControl::ActionButton,
        RowTitle::Setting(ControlField::CardTextSize) => RowControl::Slider,
        RowTitle::Setting(ControlField::StatusBarTextSize) => RowControl::Slider,
        RowTitle::Setting(ControlField::LineCount) => RowControl::Slider,
        RowTitle::Setting(ControlField::PointerAcceleration) => RowControl::Slider,
        RowTitle::Setting(ControlField::ClipboardAutoExpireDays) => RowControl::Slider,
        RowTitle::Setting(ControlField::CornerRadius) => RowControl::TextInput,
        RowTitle::Setting(ControlField::ClipboardMaxEntries) => RowControl::TextInput,
        RowTitle::Website => RowControl::Link,
        RowTitle::Github => RowControl::Link,
        RowTitle::Version => RowControl::Value,
        RowTitle::Accessibility => RowControl::Status,
        RowTitle::ScreenRecording => RowControl::Status,
        _ => RowControl::Switch,
    }
}

/// The card that a row stands in.
pub open spec fn card_for(title: RowTitle) -> SectionTitle {
    match title {
        RowTitle::Setting(ControlField::Theme) => SectionTitle::Appearance,
        RowTitle::Setting(ControlField::GlassStyle) => SectionTitle::Appearance,
        RowTitle::Setting(ControlField::GlassTint) => SectionTitle::Appearance,
        RowTitle::Setting(ControlField::Locale) => SectionTitle::Language,
        RowTitle::Setting(ControlField::LogLevel) => SectionTitle::Logging,
        RowTitle::ExportLogs => SectionTitle::Logging,
        RowTitle::Setting(ControlField::LaunchAtLogin) => SectionTitle::Startup,
        RowTitle::Setting(ControlField::WindowsEnabled) => SectionTitle::Windows,
        RowTitle::Setting(ControlField::ShowMinimized) => SectionTitle::WindowOptions,
        RowTitle::Setting(ControlField::ThumbnailsEnabled) => SectionTitle::WindowOptions,
        RowTitle::Setting(ControlField::FocusedThumbnailPrewarm) => SectionTitle::WindowOptions,
        RowTitle::Setting(ControlField::ShowAppNameInCards) => SectionTitle::WindowOptions,
        RowTitle::Setting(ControlField::CardTextSize) => SectionTitle::WindowOptions,
        RowTitle::Setting(ControlField::StatusBarTextSize) => SectionTitle::WindowOptions,
        RowTitle::Setting(ControlField::OverlayPosition) => SectionTitle::WindowOptions,
        RowTitle::Setting(ControlField::ActivationMode) => SectionTitle::WindowOptions,
        RowTitle::Setting(ControlField::CornerRadius) => SectionTitle::WindowOptions,
        RowTitle::Setting(ControlField::Modifier) => SectionTitle::Keyboard,
        RowTitle::Setting(ControlField::MouseEnabled) => SectionTitle::Mouse,
        RowTitle::Device => SectionTitle::MouseDevice,
        RowTitle::Setting(ControlField::ScrollMode) => SectionTitle::MouseDevice,
        RowTitle::Setting(ControlField::LineCount) => SectionTitle::MouseDevice,
        RowTitle::Setting(ControlField::ReverseScroll) => SectionTitle::MouseScrolling,
        RowTitle::Setting(ControlField::DisablePointerAccel) => SectionTitle::MousePointer,
        RowTitle::Setting(ControlField::PointerAcceleration) => SectionTitle::MousePointer,
        RowTitle::Setting(ControlField::MappingEnabled) => SectionTitle::MouseMappings,
        RowTitle::Setting(ControlField::ClipboardEnabled) => SectionTitle::Clipboard,
        RowTitle::Setting(ControlField::ClipboardPinFollow) => SectionTitle::ClipboardOptions,
        RowTitle::Setting(ControlField::ClipboardPersist) => SectionTitle::ClipboardOptions,
        RowTitle::Setting(ControlField::ClipboardShowSourceApp) => SectionTitle::ClipboardOptions,
        RowTitle::Setting(ControlField::ClipboardMoveUsedToTop) => SectionTitle::ClipboardOptions,
        RowTitle::Setting(ControlField::ClipboardDeleteAfterPaste) => SectionTitle::ClipboardOptions,
        RowTitle::Setting(ControlField::ClipboardClearSystemPasteboardAfterPaste) => SectionTitle::ClipboardOptions,
        RowTitle::Setting(ControlField::ClipboardMaxEntries) => SectionTitle::ClipboardOptions,
        RowTitle::Setting(ControlField::ClipboardAutoExpireDays) => SectionTitle::ClipboardOptions,
        RowTitle::Setting(ControlField::WindowControlEnabled) => SectionTitle::WindowControl,
        RowTitle::Setting(ControlField::WindowControlUp) => SectionTitle::WindowControlShortcuts,
        RowTitle::Setting(ControlField::WindowControlDown) => SectionTitle::WindowControlShortcuts,
        RowTitle::Setting(ControlField::WindowControlLeft) => SectionTitle::WindowControlShortcuts,
        RowTitle::Setting(ControlField::WindowControlRight) => SectionTitle::WindowControlShortcuts,
        RowTitle::Setting(ControlField::WindowControlDisplayUp) => SectionTitle::WindowControlShortcuts,
        RowTitle::Setting(ControlField::WindowControlDisplayDown) => SectionTitle::WindowControlShortcuts,
        RowTitle::Setting(ControlField::WindowControlDisplayLeft) => SectionTitle::WindowControlShortcuts,
        RowTitle::Setting(ControlField::WindowControlDisplayRight) => SectionTitle::WindowControlShortcuts,
        RowTitle::Setting(ControlField::QuickActionsEnabled) => SectionTitle::QuickActions,
        RowTitle::Setting(ControlField::QuickActionOpenSettings) => SectionTitle::QuickActionsShortcuts,
        RowTitle::Setting(ControlField::QuickActionOpenFinder) => SectionTitle::QuickActionsShortcuts,
        RowTitle::Setting(ControlField::QuickActionShowDesktop) => SectionTitle::QuickActionsShortcuts,
        RowTitle::Setting(ControlField::QuickActionLockScreen) => SectionTitle::QuickActionsShortcuts,
        RowTitle::Setting(ControlField::QuickActionLocatePointer) => SectionTitle::QuickActionsShortcuts,
        RowTitle::ViewGuide => SectionTitle::App,
        RowTitle::Website => SectionTitle::App,
        RowTitle::Github => SectionTitle::App,
        RowTitle::Version => SectionTitle::App,
        RowTitle::Accessibility => SectionTitle::Permissions,
        RowTitle::ScreenRecording => SectionTitle::Permissions,
        RowTitle::Setting(ControlField::UpdateAutoCheck) => SectionTitle::Updates,
        RowTitle::Setting(ControlField::UpdateAutoDownload) => SectionTitle::Updates,
    }
}

/// How wide the label of a row is.
pub open spec fn label_for(title: RowTitle) -> LabelWidth {
    match title {
        RowTitle::Setting(ControlField::Locale) => LabelWidth::Column,
        RowTitle::Setting(ControlField::OverlayPosition) => LabelWidth::Column,
        RowTitle::Setting(ControlField::ActivationMode) => LabelWidth::Column,
        RowTitle::Setting(ControlField::CornerRadius) => LabelWidth::Column,
        RowTitle::Setting(ControlField::Modifier) => LabelWidth::Column,
        RowTitle::Device => LabelWidth::Column,
        RowTitle::Setting(ControlField::ScrollMode) => LabelWidth::Column,
        RowTitle::Setting(ControlField::LineCount) => LabelWidth::Column,
        RowTitle::Setting(ControlField::PointerAcceleration) => LabelWidth::Column,
        RowTitle::Setting(ControlField::ClipboardShowSourceApp) => LabelWidth::Column,
        RowTitle::Setting(ControlField::ClipboardMaxEntries) => LabelWidth::Column,
        RowTitle::Setting(ControlField::ClipboardAutoExpireDays) => LabelWidth::Column,
        RowTitle::ViewGuide => LabelWidth::Column,
        RowTitle::Website => LabelWidth::Column,
        RowTitle::Github => LabelWidth::Column,
        RowTitle::Version => LabelWidth::Column,
        RowTitle::Accessibility => LabelWidth::Column,
        RowTitle::ScreenRecording => LabelWidth::Column,
        RowTitle::Setting(ControlField::LaunchAtLogin) => LabelWidth::BeforeLoginSwitch,
        RowTitle::Setting(ControlField::ShowMinimized) => LabelWidth::Wide,
        RowTitle::Setting(ControlField::ThumbnailsEnabled) => LabelWidth::Wide,
        RowTitle::Setting(ControlField::ShowAppNameInCards) => LabelWidth::Wide,
        RowTitle::Setting(ControlField::ClipboardPinFollow) => LabelWidth::Wide,
        RowTitle::Setting(ControlField::ClipboardPersist) => LabelWidth::Wide,
        RowTitle::Setting(ControlField::ClipboardMoveUsedToTop) => LabelWidth::Wide,
        RowTitle::Setting(ControlField::ClipboardClearSystemPasteboardAfterPaste) => LabelWidth::Indented,
        RowTitle::Setting(ControlField::UpdateAutoCheck) => LabelWidth::BeforeUpdateSwitch,
        RowTitle::Setting(ControlField::UpdateAutoDownload) => LabelWidth::BeforeUpdateSwitch,
        _ => LabelWidth::BeforeControl,
    }
}

/// How the parts of a row are placed.
pub open spec fn kind_for(title: RowTitle) -> RowKind {
    match title {
        RowTitle::Setting(ControlField::Locale) => RowKind::Plain,
        RowTitle::Setting(ControlField::ClipboardPinFollow) => RowKind::Plain,
        RowTitle::Setting(ControlField::ClipboardPersist) => RowKind::Plain,
        RowTitle::Setting(ControlField::ClipboardShowSourceApp) => RowKind::Plain,
        RowTitle::Setting(ControlField::ClipboardMoveUsedToTop) => RowKind::Plain,
        RowTitle::Setting(ControlField::ClipboardMaxEntries) => RowKind::Plain,
        RowTitle::ViewGuide => RowKind::Plain,
        RowTitle::Website => RowKind::Plain,
        RowTitle::Github => RowKind::Plain,
        RowTitle::Version => RowKind::Plain,
        RowTitle::Accessibility => RowKind::Plain,
        RowTitle::ScreenRecording => RowKind::Plain,
        RowTitle::Setting(ControlField::ShowMinimized) => RowKind::Tall,
        RowTitle::Setting(ControlField::ThumbnailsEnabled) => RowKind::Tall,
        RowTitle::Setting(ControlField::FocusedThumbnailPrewarm) => RowKind::Tall,
        RowTitle::Setting(ControlField::ShowAppNameInCards) => RowKind::Tall,
        RowTitle::Setting(ControlField::OverlayPosition) => RowKind::Tall,
        RowTitle::Setting(ControlField::ActivationMode) => RowKind::Tall,
        RowTitle::Setting(ControlField::CornerRadius) => RowKind::Tall,
        RowTitle::Setting(ControlField::Modifier) => RowKind::Tall,
        RowTitle::Device => RowKind::Tall,
        RowTitle::Setting(ControlField::ScrollMode) => RowKind::Tall,
        RowTitle::Setting(ControlField::LineCount) => RowKind::Tall,
        RowTitle::Setting(ControlField::PointerAcceleration) => RowKind::Tall,
        RowTitle::Setting(ControlField::ClipboardClearSystemPasteboardAfterPaste) => RowKind::Tall,
        RowTitle::Setting(ControlField::ClipboardAutoExpireDays) => RowKind::Tall,
        _ => RowKind::Described,
    }
}

/// The row that decides whether a row is shown, where one does.
pub open spec fn decided_by(title: RowTitle) -> Option<(ControlField, RowBlock)> {
    match title {
        RowTitle::Setting(ControlField::FocusedThumbnailPrewarm) => Some(
            (ControlField::ThumbnailsEnabled, RowBlock::ThumbnailOnly),
        ),
        RowTitle::Setting(ControlField::ShowAppNameInCards) => Some(
            (ControlField::ThumbnailsEnabled, RowBlock::ThumbnailOnly),
        ),
        RowTitle::Setting(ControlField::LineCount) => Some(
            (ControlField::ScrollMode, RowBlock::LineCount),
        ),
        RowTitle::Setting(ControlField::PointerAcceleration) => Some(
            (ControlField::DisablePointerAccel, RowBlock::PointerAccel),
        ),
        RowTitle::Setting(ControlField::ClipboardClearSystemPasteboardAfterPaste) => Some(
            (ControlField::ClipboardDeleteAfterPaste, RowBlock::ClipboardDelete),
        ),
        _ => None,
    }
}

/// The card at or below an item.
pub open spec fn card_below(items: Seq<PageItem>, i: int) -> Option<SectionTitle>
    decreases items.len() - i,
{
    if i < 0 || i >= items.len() {
        None
    } else {
        match items[i] {
            PageItem::Card(title) => Some(title),
            _ => card_below(items, i + 1),
        }
    }
}

/// Whether a row has the form that its title asks for.
pub open spec fn has_its_form(row: PageRow) -> bool {
    &&& row.control == control_for(row.title)
    &&& row.kind == kind_for(row.title)
    &&& row.label == label_for(row.title)
    &&& row.block == match decided_by(row.title) {
        Some((_, block)) => Some(block),
        None => None,
    }
}

/// Whether the rows of a stack are those that belong to it, in their places and forms.
pub open spec fn holds_its_rows(n: int) -> bool {
    forall|i: int|
        0 <= i < stack_of(n).len() ==> match #[trigger] stack_of(n)[i] {
            PageItem::Row(row) => stack_with(row.title) == n && place_of(row.title) == i
                && has_its_form(row),
            _ => true,
        }
}

proof fn appearance_holds_its_rows()
    ensures
        holds_its_rows(0),
{
}

proof fn appearance_row_is_there(title: RowTitle)
    requires
        stack_with(title) == 0,
    ensures
        0 <= place_of(title) < stack_of(0).len(),
        stack_of(0)[place_of(title)] matches PageItem::Row(row) && row.title == title,
{
}

proof fn appearance_cards_fit()
    ensures
        forall|i: int|
            0 <= i < stack_of(0).len() ==> match #[trigger] stack_of(0)[i] {
                PageItem::Row(row) => card_below(stack_of(0), i) == Some(card_for(row.title)),
                _ => true,
            },
{
    reveal_with_fuel(card_below, 12);
}

proof fn general_holds_its_rows()
    ensures
        holds_its_rows(1),
{
}

proof fn general_row_is_there(title: RowTitle)
    requires
        stack_with(title) == 1,
    ensures
        0 <= place_of(title) < stack_of(1).len(),
        stack_of(1)[place_of(title)] matches PageItem::Row(row) && row.title == title,
{
}

proof fn general_cards_fit()
    ensures
        forall|i: int|
            0 <= i < stack_of(1).len() ==> match #[trigger] stack_of(1)[i] {
                PageItem::Row(row) => card_below(stack_of(1), i) == Some(card_for(row.title)),
                _ => true,
            },
{
    reveal_with_fuel(card_below, 12);
}

proof fn switcher_holds_its_rows()
    ensures
        holds_its_rows(2),
{
}

proof fn switcher_row_is_there(title: RowTitle)
    requires
        stack_with(title) == 2,
    ensures
        0 <= place_of(title) < stack_of(2).len(),
        stack_of(2)[place_of(title)] matches PageItem::Row(row) && row.title == title,
{
}

proof fn switcher_cards_fit()
    ensures
        forall|i: int|
            0 <= i < stack_of(2).len() ==> match #[trigger] stack_of(2)[i] {
                PageItem::Row(row) => card_below(stack_of(2), i) == Some(card_for(row.title)),
                _ => true,
            },
{
    reveal_with_fuel(card_below, 12);
}

proof fn mouse_holds_its_rows()
    ensures
        holds_its_rows(3),
{
}

proof fn mouse_row_is_there(title: RowTitle)
    requires
        stack_with(title) == 3,
    ensures
        0 <= place_of(title) < stack_of(3).len(),
        stack_of(3)[place_of(title)] matches PageItem::Row(row) && row.title == title,
{
}

proof fn mouse_cards_fit()
    ensures
        forall|i: int|
            0 <= i < stack_of(3).len() ==> match #[trigger] stack_of(3)[i] {
                PageItem::Row(row) => card_below(stack_of(3), i) == Some(card_for(row.title)),
                _ => true,
            },
{
    reveal_with_fuel(card_below, 12);
}

proof fn clipboard_holds_its_rows()
    ensures
        holds_its_rows(4),
{
}

proof fn clipboard_row_is_there(title: RowTitle)
    requires
        stack_with(title) == 4,
    ensures
        0 <= place_of(title) < stack_of(4).len(),
        stack_of(4)[place_of(title)] matches PageItem::Row(row) && row.title == title,
{
}

proof fn clipboard_cards_fit()
    ensures
        forall|i: int|
            0 <= i < stack_of(4).len() ==> match #[trigger] stack_of(4)[i] {
                PageItem::Row(row) => card_below(stack_of(4), i) == Some(card_for(row.title)),
                _ => true,
            },
{
    reveal_with_fuel(card_below, 12);
}

proof fn window_control_holds_its_rows()
    ensures
        holds_its_rows(5),
{
}

proof fn window_control_row_is_there(title: RowTitle)
    requires
        stack_with(title) == 5,
    ensures
        0 <= place_of(title) < stack_of(5).len(),
        stack_of(5)[place_of(title)] matches PageItem::Row(row) && row.title == title,
{
}

proof fn window_control_cards_fit()
    ensures
        forall|i: int|
            0 <= i < stack_of(5).len() ==> match #[trigger] stack_of(5)[i] {
                PageItem::Row(row) => card_below(stack_of(5), i) == Some(card_for(row.title)),
                _ => true,
            },
{
    reveal_with_fuel(card_below, 12);
}

proof fn quick_actions_holds_its_rows()
    ensures
        holds_its_rows(6),
{
}

proof fn quick_actions_row_is_there(title: RowTitle)
    requires
        stack_with(title) == 6,
    ensures
        0 <= place_of(title) < stack_of(6).len(),
        stack_of(6)[place_of(title)] matches PageItem::Row(row) && row.title == title,
{
}

proof fn quick_actions_cards_fit()
    ensures
        forall|i: int|
            0 <= i < stack_of(6).len() ==> match #[trigger] stack_of(6)[i] {
                PageItem::Row(row) => card_below(stack_of(6), i) == Some(card_for(row.title)),
                _ => true,
            },
{
    reveal_with_fuel(card_below, 12);
}

proof fn app_holds_its_rows()
    ensures
        holds_its_rows(7),
{
}

proof fn app_row_is_there(title: RowTitle)
    requires
        stack_with(title) == 7,
    ensures
        0 <= place_of(title) < stack_of(7).len(),
        stack_of(7)[place_of(title)] matches PageItem::Row(row) && row.title == title,
{
}

proof fn app_cards_fit()
    ensures
        forall|i: int|
            0 <= i < stack_of(7).len() ==> match #[trigger] stack_of(7)[i] {
                PageItem::Row(row) => card_below(stack_of(7), i) == Some(card_for(row.title)),
                _ => true,
            },
{
    reveal_with_fuel(card_below, 12);
}

proof fn permissions_holds_its_rows()
    ensures
        holds_its_rows(8),
{
}

proof fn permissions_row_is_there(title: RowTitle)
    requires
        stack_with(title) == 8,
    ensures
        0 <= place_of(title) < stack_of(8).len(),
        stack_of(8)[place_of(title)] matches PageItem::Row(row) && row.title == title,
{
}

proof fn permissions_cards_fit()
    ensures
        forall|i: int|
            0 <= i < stack_of(8).len() ==> match #[trigger] stack_of(8)[i] {
                PageItem::Row(row) => card_below(stack_of(8), i) == Some(card_for(row.title)),
                _ => true,
            },
{
    reveal_with_fuel(card_below, 12);
}

proof fn updates_holds_its_rows()
    ensures
        holds_its_rows(9),
{
}

proof fn updates_row_is_there(title: RowTitle)
    requires
        stack_with(title) == 9,
    ensures
        0 <= place_of(title) < stack_of(9).len(),
        stack_of(9)[place_of(title)] matches PageItem::Row(row) && row.title == title,
{
}

/// Every row that there is has a place: it stands in its stack where it belongs, with the
/// control, the look and the label that it needs.
pub proof fn every_row_has_its_place(title: RowTitle)
    ensures
        0 <= stack_with(title) < STACK_COUNT,
        0 <= place_of(title) < stack_of(stack_with(title)).len(),
        stack_of(stack_with(title))[place_of(title)] matches PageItem::Row(row) && row.title
            == title && has_its_form(row),
{
    let n = stack_with(title);
    if n == 0 {
        appearance_row_is_there(title);
    } else if n == 1 {
        general_row_is_there(title);
    } else if n == 2 {
        switcher_row_is_there(title);
    } else if n == 3 {
        mouse_row_is_there(title);
    } else if n == 4 {
        clipboard_row_is_there(title);
    } else if n == 5 {
        window_control_row_is_there(title);
    } else if n == 6 {
        quick_actions_row_is_there(title);
    } else if n == 7 {
        app_row_is_there(title);
    } else if n == 8 {
        permissions_row_is_there(title);
    } else {
        updates_row_is_there(title);
    }
    rows_belong_where_they_stand(n, place_of(title));
}

/// Whatever row stands on a page belongs there, and in that place, with the form that its
/// title asks for.
pub proof fn rows_belong_where_they_stand(n: int, i: int)
    requires
        0 <= n < STACK_COUNT,
        0 <= i < stack_of(n).len(),
    ensures
        stack_of(n)[i] matches PageItem::Row(row) ==> stack_with(row.title) == n && place_of(
            row.title,
        ) == i && has_its_form(row),
{
    if n == 0 {
        appearance_holds_its_rows();
    } else if n == 1 {
        general_holds_its_rows();
    } else if n == 2 {
        switcher_holds_its_rows();
    } else if n == 3 {
        mouse_holds_its_rows();
    } else if n == 4 {
        clipboard_holds_its_rows();
    } else if n == 5 {
        window_control_holds_its_rows();
    } else if n == 6 {
        quick_actions_holds_its_rows();
    } else if n == 7 {
        app_holds_its_rows();
    } else if n == 8 {
        permissions_holds_its_rows();
    } else {
        updates_holds_its_rows();
    }
}

/// No setting is listed twice, on one page or on two.
pub proof fn rows_are_listed_once(m: int, i: int, n: int, j: int)
    requires
        0 <= m < STACK_COUNT,
        0 <= n < STACK_COUNT,
        0 <= i < stack_of(m).len(),
        0 <= j < stack_of(n).len(),
        stack_of(m)[i] is Row,
        stack_of(n)[j] is Row,
        stack_of(m)[i]->Row_0.title == stack_of(n)[j]->Row_0.title,
    ensures
        m == n,
        i == j,
{
    rows_belong_where_they_stand(m, i);
    rows_belong_where_they_stand(n, j);
}

/// Each row stands in the card that it belongs to. The card of the update switches holds
/// their button too, and is placed with it.
pub proof fn rows_stand_in_their_cards(n: int, i: int)
    requires
        0 <= n < STACK_COUNT,
        0 <= i < stack_of(n).len(),
        stack_of(n)[i] is Row,
    ensures
        n < 9 ==> card_below(stack_of(n), i) == Some(card_for(stack_of(n)[i]->Row_0.title)),
        n == 9 ==> card_below(stack_of(n), i) is None,
        n == 9 ==> card_for(stack_of(n)[i]->Row_0.title) == SectionTitle::Updates,
{
    if n == 9 {
        reveal_with_fuel(card_below, 4);
    }
    if n == 0 {
        appearance_cards_fit();
    } else if n == 1 {
        general_cards_fit();
    } else if n == 2 {
        switcher_cards_fit();
    } else if n == 3 {
        mouse_cards_fit();
    } else if n == 4 {
        clipboard_cards_fit();
    } else if n == 5 {
        window_control_cards_fit();
    } else if n == 6 {
        quick_actions_cards_fit();
    } else if n == 7 {
        app_cards_fit();
    } else if n == 8 {
        permissions_cards_fit();
    }
}

/// Each page with a switch of its own has it in a card by itself, at the top; the shortcuts
/// of windows and displays come in the order up, down, left, right.
pub proof fn pages_start_with_their_switch(page: ControlField)
    requires
        page == ControlField::WindowsEnabled || page == ControlField::MouseEnabled || page
            == ControlField::ClipboardEnabled || page == ControlField::WindowControlEnabled || page
            == ControlField::QuickActionsEnabled,
    ensures
        place_of(RowTitle::Setting(page)) == 1,
        stack_of(stack_with(RowTitle::Setting(page)))[2] is Card,
        ({
            let at = |field: ControlField| place_of(RowTitle::Setting(field));
            let up = at(ControlField::WindowControlUp);
            &&& at(ControlField::WindowControlDown) == up + 1
            &&& at(ControlField::WindowControlLeft) == up + 2
            &&& at(ControlField::WindowControlRight) == up + 3
            &&& at(ControlField::WindowControlDisplayUp) == up + 4
            &&& at(ControlField::WindowControlDisplayDown) == up + 5
            &&& at(ControlField::WindowControlDisplayLeft) == up + 6
            &&& at(ControlField::WindowControlDisplayRight) == up + 7
        }),
{
}

/// A row that is shown only sometimes stands below the one that decides it, with nothing
/// between them but rows that it decides as well.
pub proof fn dependent_rows_follow(title: RowTitle)
    ensures
        decided_by(title) matches Some((field, block)) ==> {
            let by = RowTitle::Setting(field);
            &&& stack_with(title) == stack_with(by)
            &&& place_of(by) < place_of(title) <= place_of(by) + 2
            &&& place_of(title) == place_of(by) + 2 ==> block == RowBlock::ThumbnailOnly
            &&& card_for(title) == card_for(by)
        },
{
}

/// A line parts each row from the one above it in its card, and the first row of a card has
/// none above it. Only the rows of the look stand without a gap. The line between the two
/// update switches is drawn with their button.
pub proof fn lines_part_the_rows(n: int, i: int)
    requires
        0 <= n < STACK_COUNT,
        0 < i < stack_of(n).len(),
        stack_of(n)[i] is Row,
    ensures
        ({
            let row = stack_of(n)[i]->Row_0;
            &&& stack_of(n)[i - 1] !is Row ==> row.divider == RowDivider::Missing && !row.flush
            &&& stack_of(n)[i - 1] is Row && n == 0 ==> row.divider == RowDivider::Edge && row.flush
            &&& stack_of(n)[i - 1] is Row && 0 < n < 9 ==> row.divider == RowDivider::Above
                && !row.flush
            &&& n == 9 ==> row.divider == RowDivider::Missing && !row.flush
        }),
{
}

/// What happens when a control is used follows from what kind of control it is: an input is
/// read while it is typed in, the colour well opens the colours, links and buttons do what
/// they say, and text does nothing. The switch that heads a page greys it out, that of the
/// mappings redraws their table, and everything else is just taken over.
pub proof fn actions_fit_the_controls(title: RowTitle)
    ensures
        ({
            let action = page_rows::action_of(title);
            let control = control_for(title);
            &&& action is Type <==> control == RowControl::TextInput
            &&& action is PickTint <==> control == RowControl::ColorWell
            &&& action is OpenLink <==> control == RowControl::Link
            &&& action is ExportLogs || action is OpenGuide <==> control == RowControl::ActionButton
            &&& action is ExportLogs <==> title == RowTitle::ExportLogs
            &&& action is Nothing <==> control == RowControl::Value || control == RowControl::Status
            &&& action is ChooseDevice <==> title == RowTitle::Device
            &&& action is TogglePage <==> control == RowControl::Switch && place_of(title) == 1
                && 2 <= stack_with(title) <= 6
            &&& action is ToggleMappings <==> title == RowTitle::Setting(
                ControlField::MappingEnabled,
            )
            &&& control == RowControl::Slider ==> action is Change
        }),
{
}

/// The place of an option in its select is the number that stands for it: what is stored for
/// the option with a number is the word that the option names.
pub proof fn options_name_what_they_store(
    old: crate::config::Config,
    new: crate::config::Config,
    reading: dispatch::ControlReading,
    tables: dispatch::ChoiceTables,
    field: ControlField,
)
    requires
        0 <= reading.number < page_rows::options_of(field).len(),
        dispatch::setting_written(old, new, field, reading, tables),
    ensures
        ({
            let text = page_rows::options_of(field)[reading.number as int].text;
            &&& field == ControlField::Theme ==> text == "settings.theme_"@ + new.appearance.theme@
            &&& field == ControlField::ActivationMode ==> text == "settings.activation_mode_"@
                + new.windows.activation_mode@
            &&& field == ControlField::Modifier ==> text == "settings.modifier_"@
                + new.keyboard.modifier@
            &&& field == ControlField::GlassStyle ==> (text == "Clear"@
                <==> new.appearance.glass_style@ == "clear"@) && (text == "Regular"@
                <==> new.appearance.glass_style@ == "regular"@)
            &&& field == ControlField::LogLevel ==> (text == "Debug"@ <==> new.logging.level@
                == "debug"@) && (text == "Info"@ <==> new.logging.level@ == "info"@)
            &&& field == ControlField::OverlayPosition ==> (text
                == "settings.overlay_position_main_screen"@ <==> new.windows.overlay_position@
                == "main"@) && (text == "settings.overlay_position_follow_active"@
                <==> new.windows.overlay_position@ == "active_window"@)
            &&& field == ControlField::ThumbnailsEnabled ==> (text
                == "settings.window_display_mode_icons_thumbnails"@
                <==> new.layout.thumbnails_enabled) && (text
                == "settings.window_display_mode_icons"@ <==> !new.layout.thumbnails_enabled)
            &&& field == ControlField::ClipboardPinFollow ==> (text == "settings.pin_follow_entry"@
                <==> new.clipboard.pin_follow_selection) && (text == "settings.pin_keep_position"@
                <==> !new.clipboard.pin_follow_selection)
        }),
{
    reveal_strlit("settings.theme_");
    reveal_strlit("settings.theme_dark");
    reveal_strlit("settings.theme_light");
    reveal_strlit("settings.theme_auto");
    reveal_strlit("dark");
    reveal_strlit("light");
    reveal_strlit("auto");
    reveal_strlit("settings.activation_mode_");
    reveal_strlit("settings.activation_mode_click");
    reveal_strlit("settings.activation_mode_hover");
    reveal_strlit("click");
    reveal_strlit("hover");
    reveal_strlit("settings.modifier_");
    reveal_strlit("settings.modifier_option");
    reveal_strlit("settings.modifier_command");
    reveal_strlit("option");
    reveal_strlit("command");
    reveal_strlit("Clear");
    reveal_strlit("Regular");
    reveal_strlit("clear");
    reveal_strlit("regular");
    reveal_strlit("Debug");
    reveal_strlit("Info");
    reveal_strlit("debug");
    reveal_strlit("info");
    reveal_strlit("main");
    reveal_strlit("active_window");
    reveal_strlit("settings.overlay_position_main_screen");
    reveal_strlit("settings.overlay_position_follow_active");
    reveal_strlit("settings.window_display_mode_icons");
    reveal_strlit("settings.window_display_mode_icons_thumbnails");
    reveal_strlit("settings.pin_follow_entry");
    reveal_strlit("settings.pin_keep_position");
    assert("settings.theme_dark"@ =~= "settings.theme_"@ + "dark"@);
    assert("settings.theme_light"@ =~= "settings.theme_"@ + "light"@);
    assert("settings.theme_auto"@ =~= "settings.theme_"@ + "auto"@);
    assert("settings.activation_mode_click"@ =~= "settings.activation_mode_"@ + "click"@);
    assert("settings.activation_mode_hover"@ =~= "settings.activation_mode_"@ + "hover"@);
    assert("settings.modifier_option"@ =~= "settings.modifier_"@ + "option"@);
    assert("settings.modifier_command"@ =~= "settings.modifier_"@ + "command"@);
    assert("Clear"@.len() != "Regular"@.len());
    assert("Debug"@.len() != "Info"@.len());
    assert("clear"@.len() != "regular"@.len());
    assert("debug"@.len() != "info"@.len());
    assert("main"@.len() != "active_window"@.len());
    assert("settings.overlay_position_main_screen"@.len()
        != "settings.overlay_position_follow_active"@.len());
    assert("settings.window_display_mode_icons"@.len()
        != "settings.window_display_mode_icons_thumbnails"@.len());
    assert("settings.pin_follow_entry"@[13] != "settings.pin_keep_position"@[13]);
}

/// Every select that is not filled from elsewhere has its options: three for the theme, two
/// for the others. What is localized is a key of the settings.
pub proof fn selects_have_their_options(field: ControlField, i: int)
    ensures
        field == ControlField::Theme ==> page_rows::options_of(field).len() == 3,
        page_rows::options_of(field).len() > 0 ==> control_for(RowTitle::Setting(field))
            == RowControl::Popup,
        control_for(RowTitle::Setting(field)) == RowControl::Popup && field != ControlField::Locale
            && field != ControlField::ScrollMode && field != ControlField::Theme
            ==> page_rows::options_of(field).len() == 2,
        0 <= i < page_rows::options_of(field).len() ==> (page_rows::options_of(
            field,
        )[i].localized <==> field != ControlField::GlassStyle && field != ControlField::LogLevel),
{
}

/// The name by which a setting goes in the texts of the window.
pub open spec fn setting_name(field: ControlField) -> Seq<char> {
    match field {
        ControlField::Theme => "theme"@,
        ControlField::GlassStyle => "glass_style"@,
        ControlField::GlassTint => "glass_tint"@,
        ControlField::Locale => "locale"@,
        ControlField::LogLevel => "log_level"@,
        ControlField::LaunchAtLogin => "launch_at_login"@,
        ControlField::WindowsEnabled => "windows_enabled"@,
        ControlField::ShowMinimized => "show_minimized"@,
        ControlField::ThumbnailsEnabled => "window_display_mode"@,
        ControlField::FocusedThumbnailPrewarm => "focused_thumbnail_prewarm"@,
        ControlField::ShowAppNameInCards => "show_app_name_in_cards"@,
        ControlField::CardTextSize => "card_text_size"@,
        ControlField::StatusBarTextSize => "status_bar_text_size"@,
        ControlField::OverlayPosition => "overlay_position"@,
        ControlField::ActivationMode => "activation_mode"@,
        ControlField::CornerRadius => "corner_radius"@,
        ControlField::Modifier => "modifier"@,
        ControlField::MouseEnabled => "enable_mouse"@,
        ControlField::ReverseScroll => "reverse_scroll"@,
        ControlField::ScrollMode => "scroll_mode"@,
        ControlField::LineCount => "line_count"@,
        ControlField::DisablePointerAccel => "disable_pointer_accel"@,
        ControlField::PointerAcceleration => "pointer_tracking_speed"@,
        ControlField::MappingEnabled => "mapping_enable"@,
        ControlField::ClipboardEnabled => "clipboard_enabled"@,
        ControlField::ClipboardPersist => "clipboard_persist"@,
        ControlField::ClipboardShowSourceApp => "clipboard_show_source_app"@,
        ControlField::ClipboardMoveUsedToTop => "clipboard_move_used_to_top"@,
        ControlField::ClipboardDeleteAfterPaste => "clipboard_delete_after_paste"@,
        ControlField::ClipboardClearSystemPasteboardAfterPaste => "clipboard_clear_system_pasteboard_after_paste"@,
        ControlField::ClipboardMaxEntries => "clipboard_max_entries"@,
        ControlField::ClipboardAutoExpireDays => "clipboard_auto_expire_days"@,
        ControlField::ClipboardPinFollow => "clipboard_pin_follow"@,
        ControlField::WindowControlEnabled => "window_control_enabled"@,
        ControlField::WindowControlUp => "window_control_up"@,
        ControlField::WindowControlDown => "window_control_down"@,
        ControlField::WindowControlLeft => "window_control_left"@,
        ControlField::WindowControlRight => "window_control_right"@,
        ControlField::WindowControlDisplayUp => "window_control_display_up"@,
        ControlField::WindowControlDisplayDown => "window_control_display_down"@,
        ControlField::WindowControlDisplayLeft => "window_control_display_left"@,
        ControlField::WindowControlDisplayRight => "window_control_display_right"@,
        ControlField::QuickActionsEnabled => "quick_actions_enabled"@,
        ControlField::QuickActionOpenSettings => "quick_action_open_settings"@,
        ControlField::QuickActionOpenFinder => "quick_action_open_finder"@,
        ControlField::QuickActionShowDesktop => "quick_action_show_desktop"@,
        ControlField::QuickActionLockScreen => "quick_action_lock_screen"@,
        ControlField::QuickActionLocatePointer => "quick_action_locate_pointer"@,
        ControlField::UpdateAutoCheck => "update_auto_check"@,
        ControlField::UpdateAutoDownload => "update_auto_download"@,
    }
}

proof fn names_are_spelled_first()
    ensures
        page_rows::setting_title(ControlField::Theme) == "settings.row_"@ + setting_name(
            ControlField::Theme,
        ),
        page_rows::setting_title(ControlField::GlassStyle) == "settings.row_"@ + setting_name(
            ControlField::GlassStyle,
        ),
        page_rows::setting_title(ControlField::GlassTint) == "settings.row_"@ + setting_name(
            ControlField::GlassTint,
        ),
        page_rows::setting_title(ControlField::Locale) == "settings.row_"@ + setting_name(
            ControlField::Locale,
        ),
        page_rows::setting_title(ControlField::LogLevel) == "settings.row_"@ + setting_name(
            ControlField::LogLevel,
        ),
        page_rows::setting_title(ControlField::LaunchAtLogin) == "settings.row_"@ + setting_name(
            ControlField::LaunchAtLogin,
        ),
        page_rows::setting_title(ControlField::WindowsEnabled) == "settings.row_"@ + setting_name(
            ControlField::WindowsEnabled,
        ),
        page_rows::setting_title(ControlField::ShowMinimized) == "settings.row_"@ + setting_name(
            ControlField::ShowMinimized,
        ),
        page_rows::setting_title(ControlField::ThumbnailsEnabled) == "settings.row_"@ + setting_name(
            ControlField::ThumbnailsEnabled,
        ),
        page_rows::setting_title(ControlField::FocusedThumbnailPrewarm) == "settings.row_"@ + setting_name(
            ControlField::FocusedThumbnailPrewarm,
        ),
{
    reveal_strlit("settings.row_");
    reveal_strlit("theme");
    reveal_strlit("settings.row_theme");
    assert("settings.row_theme"@ =~= "settings.row_"@ + "theme"@);
    reveal_strlit("glass_style");
    reveal_strlit("settings.row_glass_style");
    assert("settings.row_glass_style"@ =~= "settings.row_"@ + "glass_style"@);
    reveal_strlit("glass_tint");
    reveal_strlit("settings.row_glass_tint");
    assert("settings.row_glass_tint"@ =~= "settings.row_"@ + "glass_tint"@);
    reveal_strlit("locale");
    reveal_strlit("settings.row_locale");
    assert("settings.row_locale"@ =~= "settings.row_"@ + "locale"@);
    reveal_strlit("log_level");
    reveal_strlit("settings.row_log_level");
    assert("settings.row_log_level"@ =~= "settings.row_"@ + "log_level"@);
    reveal_strlit("launch_at_login");
    reveal_strlit("settings.row_launch_at_login");
    assert("settings.row_launch_at_login"@ =~= "settings.row_"@ + "launch_at_login"@);
    reveal_strlit("windows_enabled");
    reveal_strlit("settings.row_windows_enabled");
    assert("settings.row_windows_enabled"@ =~= "settings.row_"@ + "windows_enabled"@);
    reveal_strlit("show_minimized");
    reveal_strlit("settings.row_show_minimized");
    assert("settings.row_show_minimized"@ =~= "settings.row_"@ + "show_minimized"@);
    reveal_strlit("window_display_mode");
    reveal_strlit("settings.row_window_display_mode");
    assert("settings.row_window_display_mode"@ =~= "settings.row_"@ + "window_display_mode"@);
    reveal_strlit("focused_thumbnail_prewarm");
    reveal_strlit("settings.row_focused_thumbnail_prewarm");
    assert("settings.row_focused_thumbnail_prewarm"@ =~= "settings.row_"@ + "focused_thumbnail_prewarm"@);
}

proof fn names_are_spelled_second()
    ensures
        page_rows::setting_title(ControlField::ShowAppNameInCards) == "settings.row_"@ + setting_name(
            ControlField::ShowAppNameInCards,
        ),
        page_rows::setting_title(ControlField::CardTextSize) == "settings.row_"@ + setting_name(
            ControlField::CardTextSize,
        ),
        page_rows::setting_title(ControlField::StatusBarTextSize) == "settings.row_"@ + setting_name(
            ControlField::StatusBarTextSize,
        ),
        page_rows::setting_title(ControlField::OverlayPosition) == "settings.row_"@ + setting_name(
            ControlField::OverlayPosition,
        ),
        page_rows::setting_title(ControlField::ActivationMode) == "settings.row_"@ + setting_name(
            ControlField::ActivationMode,
        ),
        page_rows::setting_title(ControlField::CornerRadius) == "settings.row_"@ + setting_name(
            ControlField::CornerRadius,
        ),
        page_rows::setting_title(ControlField::Modifier) == "settings.row_"@ + setting_name(
            ControlField::Modifier,
        ),
        page_rows::setting_title(ControlField::MouseEnabled) == "settings.row_"@ + setting_name(
            ControlField::MouseEnabled,
        ),
        page_rows::setting_title(ControlField::ReverseScroll) == "settings.row_"@ + setting_name(
            ControlField::ReverseScroll,
        ),
        page_rows::setting_title(ControlField::ScrollMode) == "settings.row_"@ + setting_name(
            ControlField::ScrollMode,
        ),
{
    reveal_strlit("settings.row_");
    reveal_strlit("show_app_name_in_cards");
    reveal_strlit("settings.row_show_app_name_in_cards");
    assert("settings.row_show_app_name_in_cards"@ =~= "settings.row_"@ + "show_app_name_in_cards"@);
    reveal_strlit("card_text_size");
    reveal_strlit("settings.row_card_text_size");
    assert("settings.row_card_text_size"@ =~= "settings.row_"@ + "card_text_size"@);
    reveal_strlit("status_bar_text_size");
    reveal_strlit("settings.row_status_bar_text_size");
    assert("settings.row_status_bar_text_size"@ =~= "settings.row_"@ + "status_bar_text_size"@);
    reveal_strlit("overlay_position");
    reveal_strlit("settings.row_overlay_position");
    assert("settings.row_overlay_position"@ =~= "settings.row_"@ + "overlay_position"@);
    reveal_strlit("activation_mode");
    reveal_strlit("settings.row_activation_mode");
    assert("settings.row_activation_mode"@ =~= "settings.row_"@ + "activation_mode"@);
    reveal_strlit("corner_radius");
    reveal_strlit("settings.row_corner_radius");
    assert("settings.row_corner_radius"@ =~= "settings.row_"@ + "corner_radius"@);
    reveal_strlit("modifier");
    reveal_strlit("settings.row_modifier");
    assert("settings.row_modifier"@ =~= "settings.row_"@ + "modifier"@);
    reveal_strlit("enable_mouse");
    reveal_strlit("settings.row_enable_mouse");
    assert("settings.row_enable_mouse"@ =~= "settings.row_"@ + "enable_mouse"@);
    reveal_strlit("reverse_scroll");
    reveal_strlit("settings.row_reverse_scroll");
    assert("settings.row_reverse_scroll"@ =~= "settings.row_"@ + "reverse_scroll"@);
    reveal_strlit("scroll_mode");
    reveal_strlit("settings.row_scroll_mode");
    assert("settings.row_scroll_mode"@ =~= "settings.row_"@ + "scroll_mode"@);
}

proof fn names_are_spelled_third()
    ensures
        page_rows::setting_title(ControlField::LineCount) == "settings.row_"@ + setting_name(
            ControlField::LineCount,
        ),
        page_rows::setting_title(ControlField::DisablePointerAccel) == "settings.row_"@ + setting_name(
            ControlField::DisablePointerAccel,
        ),
        page_rows::setting_title(ControlField::PointerAcceleration) == "settings.row_"@ + setting_name(
            ControlField::PointerAcceleration,
        ),
        page_rows::setting_title(ControlField::MappingEnabled) == "settings.row_"@ + setting_name(
            ControlField::MappingEnabled,
        ),
        page_rows::setting_title(ControlField::ClipboardEnabled) == "settings.row_"@ + setting_name(
            ControlField::ClipboardEnabled,
        ),
        page_rows::setting_title(ControlField::ClipboardPersist) == "settings.row_"@ + setting_name(
            ControlField::ClipboardPersist,
        ),
        page_rows::setting_title(ControlField::ClipboardShowSourceApp) == "settings.row_"@ + setting_name(
            ControlField::ClipboardShowSourceApp,
        ),
        page_rows::setting_title(ControlField::ClipboardMoveUsedToTop) == "settings.row_"@ + setting_name(
            ControlField::ClipboardMoveUsedToTop,
        ),
        page_rows::setting_title(ControlField::ClipboardDeleteAfterPaste) == "settings.row_"@ + setting_name(
            ControlField::ClipboardDeleteAfterPaste,
        ),
        page_rows::setting_title(ControlField::ClipboardClearSystemPasteboardAfterPaste) == "settings.row_"@ + setting_name(
            ControlField::ClipboardClearSystemPasteboardAfterPaste,
        ),
{
    reveal_strlit("settings.row_");
    reveal_strlit("line_count");
    reveal_strlit("settings.row_line_count");
    assert("settings.row_line_count"@ =~= "settings.row_"@ + "line_count"@);
    reveal_strlit("disable_pointer_accel");
    reveal_strlit("settings.row_disable_pointer_accel");
    assert("settings.row_disable_pointer_accel"@ =~= "settings.row_"@ + "disable_pointer_accel"@);
    reveal_strlit("pointer_tracking_speed");
    reveal_strlit("settings.row_pointer_tracking_speed");
    assert("settings.row_pointer_tracking_speed"@ =~= "settings.row_"@ + "pointer_tracking_speed"@);
    reveal_strlit("mapping_enable");
    reveal_strlit("settings.row_mapping_enable");
    assert("settings.row_mapping_enable"@ =~= "settings.row_"@ + "mapping_enable"@);
    reveal_strlit("clipboard_enabled");
    reveal_strlit("settings.row_clipboard_enabled");
    assert("settings.row_clipboard_enabled"@ =~= "settings.row_"@ + "clipboard_enabled"@);
    reveal_strlit("clipboard_persist");
    reveal_strlit("settings.row_clipboard_persist");
    assert("settings.row_clipboard_persist"@ =~= "settings.row_"@ + "clipboard_persist"@);
    reveal_strlit("clipboard_show_source_app");
    reveal_strlit("settings.row_clipboard_show_source_app");
    assert("settings.row_clipboard_show_source_app"@ =~= "settings.row_"@ + "clipboard_show_source_app"@);
    reveal_strlit("clipboard_move_used_to_top");
    reveal_strlit("settings.row_clipboard_move_used_to_top");
    assert("settings.row_clipboard_move_used_to_top"@ =~= "settings.row_"@ + "clipboard_move_used_to_top"@);
    reveal_strlit("clipboard_delete_after_paste");
    reveal_strlit("settings.row_clipboard_delete_after_paste");
    assert("settings.row_clipboard_delete_after_paste"@ =~= "settings.row_"@ + "clipboard_delete_after_paste"@);
    reveal_strlit("clipboard_clear_system_pasteboard_after_paste");
    reveal_strlit("settings.row_clipboard_clear_system_pasteboard_after_paste");
    assert("settings.row_clipboard_clear_system_pasteboard_after_paste"@ =~= "settings.row_"@ + "clipboard_clear_system_pasteboard_after_paste"@);
}

proof fn names_are_spelled_fourth()
    ensures
        page_rows::setting_title(ControlField::ClipboardMaxEntries) == "settings.row_"@ + setting_name(
            ControlField::ClipboardMaxEntries,
        ),
        page_rows::setting_title(ControlField::ClipboardAutoExpireDays) == "settings.row_"@ + setting_name(
            ControlField::ClipboardAutoExpireDays,
        ),
        page_rows::setting_title(ControlField::ClipboardPinFollow) == "settings.row_"@ + setting_name(
            ControlField::ClipboardPinFollow,
        ),
        page_rows::setting_title(ControlField::WindowControlEnabled) == "settings.row_"@ + setting_name(
            ControlField::WindowControlEnabled,
        ),
        page_rows::setting_title(ControlField::WindowControlUp) == "settings.row_"@ + setting_name(
            ControlField::WindowControlUp,
        ),
        page_rows::setting_title(ControlField::WindowControlDown) == "settings.row_"@ + setting_name(
            ControlField::WindowControlDown,
        ),
        page_rows::setting_title(ControlField::WindowControlLeft) == "settings.row_"@ + setting_name(
            ControlField::WindowControlLeft,
        ),
        page_rows::setting_title(ControlField::WindowControlRight) == "settings.row_"@ + setting_name(
            ControlField::WindowControlRight,
        ),
        page_rows::setting_title(ControlField::WindowControlDisplayUp) == "settings.row_"@ + setting_name(
            ControlField::WindowControlDisplayUp,
        ),
        page_rows::setting_title(ControlField::WindowControlDisplayDown) == "settings.row_"@ + setting_name(
            ControlField::WindowControlDisplayDown,
        ),
{
    reveal_strlit("settings.row_");
    reveal_strlit("clipboard_max_entries");
    reveal_strlit("settings.row_clipboard_max_entries");
    assert("settings.row_clipboard_max_entries"@ =~= "settings.row_"@ + "clipboard_max_entries"@);
    reveal_strlit("clipboard_auto_expire_days");
    reveal_strlit("settings.row_clipboard_auto_expire_days");
    assert("settings.row_clipboard_auto_expire_days"@ =~= "settings.row_"@ + "clipboard_auto_expire_days"@);
    reveal_strlit("clipboard_pin_follow");
    reveal_strlit("settings.row_clipboard_pin_follow");
    assert("settings.row_clipboard_pin_follow"@ =~= "settings.row_"@ + "clipboard_pin_follow"@);
    reveal_strlit("window_control_enabled");
    reveal_strlit("settings.row_window_control_enabled");
    assert("settings.row_window_control_enabled"@ =~= "settings.row_"@ + "window_control_enabled"@);
    reveal_strlit("window_control_up");
    reveal_strlit("settings.row_window_control_up");
    assert("settings.row_window_control_up"@ =~= "settings.row_"@ + "window_control_up"@);
    reveal_strlit("window_control_down");
    reveal_strlit("settings.row_window_control_down");
    assert("settings.row_window_control_down"@ =~= "settings.row_"@ + "window_control_down"@);
    reveal_strlit("window_control_left");
    reveal_strlit("settings.row_window_control_left");
    assert("settings.row_window_control_left"@ =~= "settings.row_"@ + "window_control_left"@);
    reveal_strlit("window_control_right");
    reveal_strlit("settings.row_window_control_right");
    assert("settings.row_window_control_right"@ =~= "settings.row_"@ + "window_control_right"@);
    reveal_strlit("window_control_display_up");
    reveal_strlit("settings.row_window_control_display_up");
    assert("settings.row_window_control_display_up"@ =~= "settings.row_"@ + "window_control_display_up"@);
    reveal_strlit("window_control_display_down");
    reveal_strlit("settings.row_window_control_display_down");
    assert("settings.row_window_control_display_down"@ =~= "settings.row_"@ + "window_control_display_down"@);
}

proof fn names_are_spelled_fifth()
    ensures
        page_rows::setting_title(ControlField::WindowControlDisplayLeft) == "settings.row_"@ + setting_name(
            ControlField::WindowControlDisplayLeft,
        ),
        page_rows::setting_title(ControlField::WindowControlDisplayRight) == "settings.row_"@ + setting_name(
            ControlField::WindowControlDisplayRight,
        ),
        page_rows::setting_title(ControlField::QuickActionsEnabled) == "settings.row_"@ + setting_name(
            ControlField::QuickActionsEnabled,
        ),
        page_rows::setting_title(ControlField::QuickActionOpenSettings) == "settings.row_"@ + setting_name(
            ControlField::QuickActionOpenSettings,
        ),
        page_rows::setting_title(ControlField::QuickActionOpenFinder) == "settings.row_"@ + setting_name(
            ControlField::QuickActionOpenFinder,
        ),
        page_rows::setting_title(ControlField::QuickActionShowDesktop) == "settings.row_"@ + setting_name(
            ControlField::QuickActionShowDesktop,
        ),
        page_rows::setting_title(ControlField::QuickActionLockScreen) == "settings.row_"@ + setting_name(
            ControlField::QuickActionLockScreen,
        ),
        page_rows::setting_title(ControlField::QuickActionLocatePointer) == "settings.row_"@ + setting_name(
            ControlField::QuickActionLocatePointer,
        ),
        page_rows::setting_title(ControlField::UpdateAutoCheck) == "settings.row_"@ + setting_name(
            ControlField::UpdateAutoCheck,
        ),
        page_rows::setting_title(ControlField::UpdateAutoDownload) == "settings.row_"@ + setting_name(
            ControlField::UpdateAutoDownload,
        ),
{
    reveal_strlit("settings.row_");
    reveal_strlit("window_control_display_left");
    reveal_strlit("settings.row_window_control_display_left");
    assert("settings.row_window_control_display_left"@ =~= "settings.row_"@ + "window_control_display_left"@);
    reveal_strlit("window_control_display_right");
    reveal_strlit("settings.row_window_control_display_right");
    assert("settings.row_window_control_display_right"@ =~= "settings.row_"@ + "window_control_display_right"@);
    reveal_strlit("quick_actions_enabled");
    reveal_strlit("settings.row_quick_actions_enabled");
    assert("settings.row_quick_actions_enabled"@ =~= "settings.row_"@ + "quick_actions_enabled"@);
    reveal_strlit("quick_action_open_settings");
    reveal_strlit("settings.row_quick_action_open_settings");
    assert("settings.row_quick_action_open_settings"@ =~= "settings.row_"@ + "quick_action_open_settings"@);
    reveal_strlit("quick_action_open_finder");
    reveal_strlit("settings.row_quick_action_open_finder");
    assert("settings.row_quick_action_open_finder"@ =~= "settings.row_"@ + "quick_action_open_finder"@);
    reveal_strlit("quick_action_show_desktop");
    reveal_strlit("settings.row_quick_action_show_desktop");
    assert("settings.row_quick_action_show_desktop"@ =~= "settings.row_"@ + "quick_action_show_desktop"@);
    reveal_strlit("quick_action_lock_screen");
    reveal_strlit("settings.row_quick_action_lock_screen");
    assert("settings.row_quick_action_lock_screen"@ =~= "settings.row_"@ + "quick_action_lock_screen"@);
    reveal_strlit("quick_action_locate_pointer");
    reveal_strlit("settings.row_quick_action_locate_pointer");
    assert("settings.row_quick_action_locate_pointer"@ =~= "settings.row_"@ + "quick_action_locate_pointer"@);
    reveal_strlit("update_auto_check");
    reveal_strlit("settings.row_update_auto_check");
    assert("settings.row_update_auto_check"@ =~= "settings.row_"@ + "update_auto_check"@);
    reveal_strlit("update_auto_download");
    reveal_strlit("settings.row_update_auto_download");
    assert("settings.row_update_auto_download"@ =~= "settings.row_"@ + "update_auto_download"@);
}

/// The text of a row is that of its setting, and of no other: it is found under the name of the
/// setting.
pub proof fn rows_are_titled_by_their_settings(field: ControlField)
    ensures
        page_rows::setting_title(field) == "settings.row_"@ + setting_name(field),
        RowTitle::Setting(field).text() == page_rows::setting_title(field),
{
    names_are_spelled_first();
    names_are_spelled_second();
    names_are_spelled_third();
    names_are_spelled_fourth();
    names_are_spelled_fifth();
}

/// The name by which a card goes in the texts of the window.
pub open spec fn section_name(title: SectionTitle) -> Seq<char> {
    match title {
        SectionTitle::Appearance => "appearance"@,
        SectionTitle::Preview => "preview"@,
        SectionTitle::Language => "language"@,
        SectionTitle::Logging => "logging"@,
        SectionTitle::Startup => "startup"@,
        SectionTitle::Windows => "windows"@,
        SectionTitle::WindowOptions => "window_options"@,
        SectionTitle::Keyboard => "keyboard"@,
        SectionTitle::Mouse => "mouse"@,
        SectionTitle::MouseDevice => "mouse_device"@,
        SectionTitle::MouseScrolling => "mouse_scrolling"@,
        SectionTitle::MousePointer => "mouse_pointer"@,
        SectionTitle::MouseMappings => "mouse_mappings"@,
        SectionTitle::Clipboard => "clipboard"@,
        SectionTitle::ClipboardOptions => "clipboard_options"@,
        SectionTitle::WindowControl => "window_control"@,
        SectionTitle::WindowControlShortcuts => "window_control_shortcuts"@,
        SectionTitle::QuickActions => "quick_actions"@,
        SectionTitle::QuickActionsShortcuts => "quick_actions_shortcuts"@,
        SectionTitle::App => "app"@,
        SectionTitle::Permissions => "permissions"@,
        SectionTitle::Updates => "updates"@,
    }
}

/// The heading of a card is found under its name, as a section on the about page and as a
/// heading elsewhere.
pub proof fn cards_are_titled_by_their_sections(title: SectionTitle)
    ensures
        title == SectionTitle::App || title == SectionTitle::Permissions || title
            == SectionTitle::Updates ==> title.text() == "settings.section_"@ + section_name(title),
        title != SectionTitle::App && title != SectionTitle::Permissions && title
            != SectionTitle::Updates ==> title.text() == "settings.header_"@ + section_name(title),
{
    reveal_strlit("settings.header_");
    reveal_strlit("settings.section_");
    reveal_strlit("appearance");
    reveal_strlit("settings.header_appearance");
    assert("settings.header_appearance"@ =~= "settings.header_"@ + "appearance"@);
    reveal_strlit("preview");
    reveal_strlit("settings.header_preview");
    assert("settings.header_preview"@ =~= "settings.header_"@ + "preview"@);
    reveal_strlit("language");
    reveal_strlit("settings.header_language");
    assert("settings.header_language"@ =~= "settings.header_"@ + "language"@);
    reveal_strlit("logging");
    reveal_strlit("settings.header_logging");
    assert("settings.header_logging"@ =~= "settings.header_"@ + "logging"@);
    reveal_strlit("startup");
    reveal_strlit("settings.header_startup");
    assert("settings.header_startup"@ =~= "settings.header_"@ + "startup"@);
    reveal_strlit("windows");
    reveal_strlit("settings.header_windows");
    assert("settings.header_windows"@ =~= "settings.header_"@ + "windows"@);
    reveal_strlit("window_options");
    reveal_strlit("settings.header_window_options");
    assert("settings.header_window_options"@ =~= "settings.header_"@ + "window_options"@);
    reveal_strlit("keyboard");
    reveal_strlit("settings.header_keyboard");
    assert("settings.header_keyboard"@ =~= "settings.header_"@ + "keyboard"@);
    reveal_strlit("mouse");
    reveal_strlit("settings.header_mouse");
    assert("settings.header_mouse"@ =~= "settings.header_"@ + "mouse"@);
    reveal_strlit("mouse_device");
    reveal_strlit("settings.header_mouse_device");
    assert("settings.header_mouse_device"@ =~= "settings.header_"@ + "mouse_device"@);
    reveal_strlit("mouse_scrolling");
    reveal_strlit("settings.header_mouse_scrolling");
    assert("settings.header_mouse_scrolling"@ =~= "settings.header_"@ + "mouse_scrolling"@);
    reveal_strlit("mouse_pointer");
    reveal_strlit("settings.header_mouse_pointer");
    assert("settings.header_mouse_pointer"@ =~= "settings.header_"@ + "mouse_pointer"@);
    reveal_strlit("mouse_mappings");
    reveal_strlit("settings.header_mouse_mappings");
    assert("settings.header_mouse_mappings"@ =~= "settings.header_"@ + "mouse_mappings"@);
    reveal_strlit("clipboard");
    reveal_strlit("settings.header_clipboard");
    assert("settings.header_clipboard"@ =~= "settings.header_"@ + "clipboard"@);
    reveal_strlit("clipboard_options");
    reveal_strlit("settings.header_clipboard_options");
    assert("settings.header_clipboard_options"@ =~= "settings.header_"@ + "clipboard_options"@);
    reveal_strlit("window_control");
    reveal_strlit("settings.header_window_control");
    assert("settings.header_window_control"@ =~= "settings.header_"@ + "window_control"@);
    reveal_strlit("window_control_shortcuts");
    reveal_strlit("settings.header_window_control_shortcuts");
    assert("settings.header_window_control_shortcuts"@ =~= "settings.header_"@ + "window_control_shortcuts"@);
    reveal_strlit("quick_actions");
    reveal_strlit("settings.header_quick_actions");
    assert("settings.header_quick_actions"@ =~= "settings.header_"@ + "quick_actions"@);
    reveal_strlit("quick_actions_shortcuts");
    reveal_strlit("settings.header_quick_actions_shortcuts");
    assert("settings.header_quick_actions_shortcuts"@ =~= "settings.header_"@ + "quick_actions_shortcuts"@);
    reveal_strlit("app");
    reveal_strlit("settings.section_app");
    assert("settings.section_app"@ =~= "settings.section_"@ + "app"@);
    reveal_strlit("permissions");
    reveal_strlit("settings.section_permissions");
    assert("settings.section_permissions"@ =~= "settings.section_"@ + "permissions"@);
    reveal_strlit("updates");
    reveal_strlit("settings.section_updates");
    assert("settings.section_updates"@ =~= "settings.section_"@ + "updates"@);
}

/// The rows that belong to no setting have texts of their own.
pub proof fn other_rows_have_their_titles()
    ensures
        RowTitle::Device.text() == SectionTitle::MouseDevice.text(),
        RowTitle::ExportLogs.text() == "settings.row_export_logs"@,
        RowTitle::ViewGuide.text() == "settings.row_view_guide"@,
        RowTitle::Website.text() == "settings.website_label"@,
        RowTitle::Github.text() == "settings.github_label"@,
        RowTitle::Version.text() == "settings.version_label_short"@,
        RowTitle::Accessibility.text() == "settings.permission_accessibility_label"@,
        RowTitle::ScreenRecording.text() == "settings.permission_screen_recording_label"@,
{
}

/// The plan of a stack has a row for everything that belongs to it: whatever the title, its row
/// is planned, in the place that it has among the rows, with the form that the title asks for.
pub proof fn plans_have_every_row(
    plan: StackPlan,
    env: PageEnv,
    start: int,
    title: RowTitle,
)
    requires
        plan.stacks(stack_of(stack_with(title)), env, start),
    ensures
        ({
            let items = stack_of(stack_with(title));
            let k = page_rows::row_count(items, place_of(title)) as int;
            &&& k < plan.rows@.len()
            &&& plan.rows@[k].row.title == title
            &&& has_its_form(plan.rows@[k].row)
            &&& plan.rows@.len() == page_rows::row_count(items, items.len() as int)
        }),
{
    every_row_has_its_place(title);
    page_rows::plans_follow_their_items(stack_of(stack_with(title)), env, start, place_of(title));
}

/// Nothing else is planned: every planned row is the row of something that belongs to the
/// stack, and no two are of the same.
pub proof fn plans_have_no_other_rows(plan: StackPlan, env: PageEnv, start: int, n: int, k: int)
    requires
        0 <= n < STACK_COUNT,
        plan.stacks(stack_of(n), env, start),
        0 <= k < plan.rows@.len(),
    ensures
        stack_with(plan.rows@[k].row.title) == n,
        page_rows::row_count(stack_of(n), place_of(plan.rows@[k].row.title)) == k,
        has_its_form(plan.rows@[k].row),
{
    let items = stack_of(n);
    planned_rows_are_items(items, env, start, items.len() as int, k);
    let i = choose|i: int|
        0 <= i < items.len() && page_rows::row_count(items, i) == k && (#[trigger] items[i])
            == PageItem::Row(plan.rows@[k].row);
    rows_belong_where_they_stand(n, i);
}

proof fn planned_rows_are_items(items: Seq<PageItem>, env: PageEnv, start: int, m: int, k: int)
    requires
        0 <= m <= items.len(),
        0 <= k < page_rows::rows_at(items, env, start, m).len(),
    ensures
        exists|i: int|
            0 <= i < m && page_rows::row_count(items, i) == k && (#[trigger] items[i])
                == PageItem::Row(page_rows::rows_at(items, env, start, m)[k].row),
    decreases m,
{
    if m > 0 {
        let before = page_rows::rows_at(items, env, start, m - 1);
        rows_are_counted(items, env, start, m - 1);
        if k < before.len() {
            planned_rows_are_items(items, env, start, m - 1, k);
            let i = choose|i: int|
                0 <= i < m - 1 && page_rows::row_count(items, i) == k && (#[trigger] items[i])
                    == PageItem::Row(before[k].row);
            assert(items[i] == PageItem::Row(page_rows::rows_at(items, env, start, m)[k].row));
        } else {
            assert(items[m - 1] == PageItem::Row(page_rows::rows_at(items, env, start, m)[k].row));
        }
    }
}

proof fn rows_are_counted(items: Seq<PageItem>, env: PageEnv, start: int, m: int)
    requires
        0 <= m <= items.len(),
    ensures
        page_rows::rows_at(items, env, start, m).len() == page_rows::row_count(items, m),
    decreases m,
{
    if m > 0 {
        rows_are_counted(items, env, start, m - 1);
    }
}

/// Sliders start with values that they can show: texts of 15 points, three lines, three days.
pub proof fn sliders_start_within_their_range()
    ensures
        page_rows::TEXT_SIZE_DEFAULT == 15,
        page_rows::LINE_COUNT_DEFAULT == 3,
        page_rows::CLIPBOARD_AUTO_EXPIRE_DEFAULT == 3,
        0 <= page_rows::CLIPBOARD_AUTO_EXPIRE_DEFAULT <= dispatch::CLIPBOARD_AUTO_EXPIRE_MAX,
        pages::PAGE_COUNT == 7,
{
}

} // verus!
