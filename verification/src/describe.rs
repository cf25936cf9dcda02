//! The text that describes an adapter and its resources.

use crate::adapter::{AdapterRecord, PciAdapter};
use crate::bar::PciBar;
use crate::pci_names::{
    class_name, device_names, pci_class_name, pci_device_names, pci_subclass_name, subclass_name,
};
use vstd::prelude::*;
use vstd::string::StringExecFns;

verus! {

/// The character of a digit below sixteen, with capital or with small
/// letters. Fifteen stands for every digit above it.
pub open spec fn spec_digit(digit: int, upper: bool) -> char {
    if digit == 0 {
        '0'
    } else if digit == 1 {
        '1'
    } else if digit == 2 {
        '2'
    } else if digit == 3 {
        '3'
    } else if digit == 4 {
        '4'
    } else if digit == 5 {
        '5'
    } else if digit == 6 {
        '6'
    } else if digit == 7 {
        '7'
    } else if digit == 8 {
        '8'
    } else if digit == 9 {
        '9'
    } else if digit == 10 {
        if upper {
            'A'
        } else {
            'a'
        }
    } else if digit == 11 {
        if upper {
            'B'
        } else {
            'b'
        }
    } else if digit == 12 {
        if upper {
            'C'
        } else {
            'c'
        }
    } else if digit == 13 {
        if upper {
            'D'
        } else {
            'd'
        }
    } else if digit == 14 {
        if upper {
            'E'
        } else {
            'e'
        }
    } else {
        if upper {
            'F'
        } else {
            'f'
        }
    }
}

/// The text of one digit. Fifteen stands for every digit above it.
pub fn digit_text(digit: u8, upper: bool) -> (text: &'static str)
    ensures
        text@ == seq![spec_digit(digit as int, upper)],
{
    proof {
        reveal_strlit("0");
        reveal_strlit("1");
        reveal_strlit("2");
        reveal_strlit("3");
        reveal_strlit("4");
        reveal_strlit("5");
        reveal_strlit("6");
        reveal_strlit("7");
        reveal_strlit("8");
        reveal_strlit("9");
        reveal_strlit("A");
        reveal_strlit("B");
        reveal_strlit("C");
        reveal_strlit("D");
        reveal_strlit("E");
        reveal_strlit("F");
        reveal_strlit("a");
        reveal_strlit("b");
        reveal_strlit("c");
        reveal_strlit("d");
        reveal_strlit("e");
        reveal_strlit("f");
    }
    let text: &'static str = if digit == 0 {
        "0"
    } else if digit == 1 {
        "1"
    } else if digit == 2 {
        "2"
    } else if digit == 3 {
        "3"
    } else if digit == 4 {
        "4"
    } else if digit == 5 {
        "5"
    } else if digit == 6 {
        "6"
    } else if digit == 7 {
        "7"
    } else if digit == 8 {
        "8"
    } else if digit == 9 {
        "9"
    } else if digit == 10 {
        if upper {
            "A"
        } else {
            "a"
        }
    } else if digit == 11 {
        if upper {
            "B"
        } else {
            "b"
        }
    } else if digit == 12 {
        if upper {
            "C"
        } else {
            "c"
        }
    } else if digit == 13 {
        if upper {
            "D"
        } else {
            "d"
        }
    } else if digit == 14 {
        if upper {
            "E"
        } else {
            "e"
        }
    } else {
        if upper {
            "F"
        } else {
            "f"
        }
    };
    assert(text@ =~= seq![spec_digit(digit as int, upper)]);
    text
}

/// A number in hexadecimal with small letters and no digit more than
/// needed.
pub open spec fn spec_hex(value: nat) -> Seq<char>
    decreases value,
{
    if value < 16 {
        seq![spec_digit(value as int, false)]
    } else {
        spec_hex(value / 16).push(spec_digit((value % 16) as int, false))
    }
}

/// The last `digits` digits of a number in hexadecimal with capital
/// letters.
pub open spec fn spec_hex_fixed(value: nat, digits: nat) -> Seq<char>
    decreases digits,
{
    if digits == 0 {
        Seq::empty()
    } else {
        spec_hex_fixed(value / 16, (digits - 1) as nat).push(spec_digit((value % 16) as int, true))
    }
}

/// A number in decimal.
pub open spec fn spec_decimal(value: nat) -> Seq<char>
    decreases value,
{
    if value < 10 {
        seq![spec_digit(value as int, false)]
    } else {
        spec_decimal(value / 10).push(spec_digit((value % 10) as int, false))
    }
}

/// Writes a number in hexadecimal with small letters.
pub fn hex(value: u64) -> (text: String)
    ensures
        text@ == spec_hex(value as nat),
    decreases value,
{
    if value < 16 {
        String::from_str(digit_text(value as u8, false))
    } else {
        let mut text = hex(value / 16);
        text.append(digit_text((value % 16) as u8, false));
        text
    }
}

/// Writes the last `digits` digits of a number in hexadecimal with
/// capital letters.
pub fn hex_fixed(value: u64, digits: u8) -> (text: String)
    ensures
        text@ == spec_hex_fixed(value as nat, digits as nat),
    decreases digits,
{
    if digits == 0 {
        String::new()
    } else {
        let mut text = hex_fixed(value / 16, digits - 1);
        text.append(digit_text((value % 16) as u8, true));
        text
    }
}

/// Writes a number in decimal.
pub fn decimal(value: u64) -> (text: String)
    ensures
        text@ == spec_decimal(value as nat),
    decreases value,
{
    if value < 10 {
        String::from_str(digit_text(value as u8, false))
    } else {
        let mut text = decimal(value / 10);
        text.append(digit_text((value % 10) as u8, false));
        text
    }
}

/// The text of a resource: its kind, its address and its size, both in
/// hexadecimal.
pub open spec fn spec_bar_text(bar: PciBar) -> Seq<char> {
    match bar {
        PciBar::IO(bar) => "IOBar"@ + ": 0x"@ + spec_hex(bar.addr as nat) + " (size 0x"@ + spec_hex(
            bar.size as nat,
        ) + ")"@,
        PciBar::Memory(bar) => "MemoryBar"@ + ": 0x"@ + spec_hex(bar.addr as nat) + " (size 0x"@
            + spec_hex(bar.size as nat) + ")"@,
    }
}

impl PciBar {
    /// Describes the resource, as in `MemoryBar: 0x40000000 (size 0x1000)`.
    pub fn to_string(&self) -> (text: String)
        ensures
            text@ == spec_bar_text(*self),
    {
        let (mut text, addr, size): (String, u64, u64) = match self {
            PciBar::IO(bar) => (String::from_str("IOBar"), bar.addr as u64, bar.size as u64),
            PciBar::Memory(bar) => (String::from_str("MemoryBar"), bar.addr, bar.size),
        };
        text.append(": 0x");
        text.append(hex(addr).as_str());
        text.append(" (size 0x");
        text.append(hex(size).as_str());
        text.append(")");
        text
    }
}

/// What an adapter is called where the database knows its class: by its
/// subclass, or else by its class, or else as unknown.
pub open spec fn spec_class_label(subclass: Option<Seq<char>>, class: Option<Seq<char>>) -> Seq<
    char,
> {
    match subclass {
        Some(name) => name,
        None => match class {
            Some(name) => name,
            None => "Unknown Class"@,
        },
    }
}

/// The name of the vendor of a device, or that it is unknown.
pub open spec fn spec_vendor_label(names: Option<(Seq<char>, Seq<char>)>) -> Seq<char> {
    match names {
        Some(names) => names.0,
        None => "Unknown Vendor"@,
    }
}

/// The name of a device, or that it is unknown.
pub open spec fn spec_device_label(names: Option<(Seq<char>, Seq<char>)>) -> Seq<char> {
    match names {
        Some(names) => names.1,
        None => "Unknown Device"@,
    }
}

/// Chooses what to call the class of an adapter: the name of its
/// subclass where there is one, else the name of its class, else
/// `Unknown Class`.
pub fn class_label(subclass: Option<String>, class: Option<String>) -> (label: String)
    ensures
        label@ == spec_class_label(
            match subclass {
                Some(name) => Some(name@),
                None => None,
            },
            match class {
                Some(name) => Some(name@),
                None => None,
            },
        ),
{
    match subclass {
        Some(name) => name,
        None => match class {
            Some(name) => name,
            None => String::from_str("Unknown Class"),
        },
    }
}

/// Chooses what to call the vendor of a device and the device: their
/// names where they are known, else `Unknown Vendor` and `Unknown Device`.
pub fn device_labels(names: Option<(String, String)>) -> (labels: (String, String))
    ensures
        labels.0@ == spec_vendor_label(
            match names {
                Some(names) => Some((names.0@, names.1@)),
                None => None,
            },
        ),
        labels.1@ == spec_device_label(
            match names {
                Some(names) => Some((names.0@, names.1@)),
                None => None,
            },
        ),
{
    match names {
        Some(names) => names,
        None => (String::from_str("Unknown Vendor"), String::from_str("Unknown Device")),
    }
}

/// Whether the interrupt line of an adapter is shown: a line of 0 or 255
/// means that the device uses none.
pub open spec fn spec_irq_shown(irq: u8) -> bool {
    irq != 0 && irq != 0xFF
}

/// The text of an adapter up to its resources: where it sits, what it is,
/// who made it, and its interrupt line if it uses one.
pub open spec fn spec_adapter_head(
    adapter: AdapterRecord,
    class_name: Seq<char>,
    vendor_name: Seq<char>,
    device_name: Seq<char>,
) -> Seq<char> {
    let head = spec_hex_fixed(adapter.bus as nat, 2) + ":"@ + spec_hex_fixed(
        adapter.device as nat,
        2,
    ) + " "@ + class_name + " ["@ + spec_hex_fixed(adapter.class_id as nat, 2) + spec_hex_fixed(
        adapter.subclass_id as nat,
        2,
    ) + "]: "@ + vendor_name + " "@ + device_name + " ["@ + spec_hex_fixed(
        adapter.vendor_id as nat,
        4,
    ) + ":"@ + spec_hex_fixed(adapter.device_id as nat, 4) + "]"@;
    if spec_irq_shown(adapter.irq) {
        head + ", IRQ "@ + spec_decimal(adapter.irq as nat)
    } else {
        head
    }
}

/// A text followed by the texts of resources, each behind a comma.
pub open spec fn spec_with_bars(head: Seq<char>, bars: Seq<PciBar>) -> Seq<char>
    decreases bars.len(),
{
    if bars.len() == 0 {
        head
    } else {
        spec_with_bars(head, bars.drop_last()) + ", "@ + spec_bar_text(bars.last())
    }
}

/// The text of an adapter.
pub open spec fn spec_adapter_text(
    adapter: AdapterRecord,
    class_name: Seq<char>,
    vendor_name: Seq<char>,
    device_name: Seq<char>,
) -> Seq<char> {
    spec_with_bars(
        spec_adapter_head(adapter, class_name, vendor_name, device_name),
        adapter.base_addresses,
    )
}

/// The text of an adapter with the names that the PCI ID database has
/// for it.
pub open spec fn spec_adapter_string(adapter: AdapterRecord) -> Seq<char> {
    spec_adapter_text(
        adapter,
        spec_class_label(
            pci_subclass_name(adapter.class_id, adapter.subclass_id),
            pci_class_name(adapter.class_id),
        ),
        spec_vendor_label(pci_device_names(adapter.vendor_id, adapter.device_id)),
        spec_device_label(pci_device_names(adapter.vendor_id, adapter.device_id)),
    )
}

impl PciAdapter {
    /// Describes the adapter under given names, as in
    /// `00:03 Ethernet controller [0200]: Red Hat, Inc. Virtio network
    /// device [1AF4:1000], IRQ 11, MemoryBar: 0x40000000 (size 0x1000)`.
    /// The interrupt line is left out where it is 0 or 255.
    pub fn describe(&self, class_name: &str, vendor_name: &str, device_name: &str) -> (text: String)
        ensures
            text@ == spec_adapter_text(self@, class_name@, vendor_name@, device_name@),
    {
        let mut text = hex_fixed(self.bus as u64, 2);
        text.append(":");
        text.append(hex_fixed(self.device as u64, 2).as_str());
        text.append(" ");
        text.append(class_name);
        text.append(" [");
        text.append(hex_fixed(self.class_id as u64, 2).as_str());
        text.append(hex_fixed(self.subclass_id as u64, 2).as_str());
        text.append("]: ");
        text.append(vendor_name);
        text.append(" ");
        text.append(device_name);
        text.append(" [");
        text.append(hex_fixed(self.vendor_id as u64, 4).as_str());
        text.append(":");
        text.append(hex_fixed(self.device_id as u64, 4).as_str());
        text.append("]");
        if self.irq != 0 && self.irq != 0xFF {
            text.append(", IRQ ");
            text.append(decimal(self.irq as u64).as_str());
        }
        let ghost head = text@;
        let mut i: usize = 0;
        proof {
            assert(self.base_addresses@.subrange(0, 0) =~= Seq::<PciBar>::empty());
        }
        while i < self.base_addresses.len()
            invariant
                i <= self.base_addresses.len(),
                text@ == spec_with_bars(head, self.base_addresses@.subrange(0, i as int)),
            decreases self.base_addresses.len() - i,
        {
            let ghost shown = self.base_addresses@.subrange(0, i as int);
            let ghost more = self.base_addresses@.subrange(0, i + 1);
            proof {
                assert(more.drop_last() =~= shown);
                assert(more.last() == self.base_addresses@[i as int]);
            }
            text.append(", ");
            text.append(self.base_addresses[i].to_string().as_str());
            i = i + 1;
        }
        proof {
            assert(self.base_addresses@.subrange(0, i as int) =~= self.base_addresses@);
        }
        text
    }

    /// Describes the adapter with the names that the PCI ID database has
    /// for its class, its vendor and the device itself.
    pub fn to_string(&self) -> (text: String)
        ensures
            text@ == spec_adapter_string(self@),
    {
        let class = class_label(
            subclass_name(self.class_id, self.subclass_id),
            class_name(self.class_id),
        );
        let (vendor, device) = device_labels(device_names(self.vendor_id, self.device_id));
        self.describe(class.as_str(), vendor.as_str(), device.as_str())
    }
}

/// The heading of the bus information.
pub fn information_title() -> (title: &'static str)
    ensures
        title@ == " PCI BUS INFORMATION "@,
{
    " PCI BUS INFORMATION "
}

/// Describes every adapter, one line for each, in their order.
pub fn print_information(adapters: &Vec<PciAdapter>) -> (lines: Vec<String>)
    ensures
        lines.len() == adapters.len(),
        forall|i: int|
            0 <= i < adapters.len() ==> (#[trigger] lines[i])@ == spec_adapter_string(adapters[i]@),
{
    let mut lines: Vec<String> = Vec::new();
    let mut i: usize = 0;
    while i < adapters.len()
        invariant
            i <= adapters.len(),
            lines.len() == i,
            forall|k: int|
                0 <= k < i ==> (#[trigger] lines[k])@ == spec_adapter_string(adapters[k]@),
        decreases adapters.len() - i,
    {
        lines.push(adapters[i].to_string());
        i = i + 1;
    }
    lines
}

} // verus!
