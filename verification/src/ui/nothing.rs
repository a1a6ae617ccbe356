//! The page of a Nothing device.

use crate::devices::enums::{DeviceData, DeviceDataView, DeviceInformation, NothingAncMode};
use crate::ui::choice::{labels, position, Choice};
use crate::ui::page::{
    add_row, add_section, no_rows, no_sections, Control, ControlView, Heading, Item, RowView,
    Section, SectionView,
};
use vstd::prelude::*;

verus! {

/// A choice among all values of a setting.
pub open spec fn choice_of<T: Choice>(value: Option<T>) -> ControlView {
    ControlView::Choice {
        options: crate::ui::choice::option_texts(T::options()),
        selected: crate::ui::choice::place_of(value),
    }
}

/// A choice among all values of a setting.
pub(crate) fn choice<T: Choice>(value: Option<T>) -> (control: Control)
    ensures
        control@ == choice_of(value),
{
    Control::Choice { options: labels(&T::choices()), selected: position(&value) }
}

/// The rows of the device information of a Nothing device.
pub open spec fn nothing_information(device: Option<DeviceDataView>) -> Seq<RowView> {
    match device {
        Some(d) => match d.information {
            Some(crate::devices::enums::DeviceInformationView::Nothing {
                serial_number,
                firmware_version,
            }) => Seq::empty().push(
                crate::ui::page::row_of(Item::SerialNumber, ControlView::Text(serial_number)),
            ).push(
                crate::ui::page::row_of(Item::FirmwareVersion, ControlView::Text(firmware_version)),
            ),
            _ => Seq::empty(),
        },
        None => Seq::empty(),
    }
}

/// The page of a Nothing device: its noise control mode, and its information
/// where it is known.
pub open spec fn nothing_page(device: Option<DeviceDataView>, mode: NothingAncMode) -> Seq<
    SectionView,
> {
    crate::ui::page::with_section(
        crate::ui::page::with_section(
            Seq::empty(),
            Heading::Untitled,
            Seq::empty().push(
                crate::ui::page::row_of(Item::NoiseControlMode, choice_of(Some(mode))),
            ),
        ),
        Heading::DeviceInformation,
        nothing_information(device),
    )
}

/// The view of a device that may be unknown.
pub open spec fn device_view(device: Option<&DeviceData>) -> Option<DeviceDataView> {
    match device {
        Some(d) => Some(d@),
        None => None,
    }
}

/// The page of a Nothing device: its noise control mode, and its information
/// where it is known.
pub fn nothing_view(device: Option<&DeviceData>, mode: NothingAncMode) -> (page: Vec<Section>)
    ensures
        crate::ui::page::sections_view(page@) == nothing_page(device_view(device), mode),
{
    let mut page = no_sections();
    let mut rows = no_rows();
    add_row(&mut rows, Item::NoiseControlMode, choice(Some(mode)));
    add_section(&mut page, Heading::Untitled, rows);
    let mut rows = no_rows();
    match device {
        Some(device) => match &device.information {
            Some(DeviceInformation::Nothing(info)) => {
                add_row(&mut rows, Item::SerialNumber, Control::Text(info.serial_number.clone()));
                add_row(
                    &mut rows,
                    Item::FirmwareVersion,
                    Control::Text(info.firmware_version.clone()),
                );
            },
            _ => {},
        },
        None => {},
    }
    add_section(&mut page, Heading::DeviceInformation, rows);
    page
}

} // verus!
