//! V4L2 control reshaping for the GUI / CLI.
//!
//! A device's advertised controls arrive as [`ControlDescription`]s
//! (plain values read from `VIDIOC_QUERY_EXT_CTRL`) together with the
//! current value read back for each; this module decides which of them
//! are listed and reshapes each into a [`ControlDescriptor`], so
//! consumers never depend on the V4L2 binding's own types.

use vstd::prelude::*;

use crate::text::{push_signed_decimal, signed_decimal};

verus! {

/// `V4L2_CTRL_CLASS_USER`.
pub const V4L2_CTRL_CLASS_USER: u32 = 0x0098_0000;

/// `V4L2_CTRL_CLASS_CAMERA`.
pub const V4L2_CTRL_CLASS_CAMERA: u32 = 0x009A_0000;

/// One V4L2 control, reshaped for UI consumption.
#[derive(Debug, Clone, PartialEq, Eq)]
pub struct ControlDescriptor {
    /// Raw V4L2 control ID (e.g. `V4L2_CID_BRIGHTNESS = 0x0098_0900`).
    pub id: u32,
    /// Human-readable name reported by the driver.
    pub name: String,
    /// Which V4L2 class the control belongs to.
    pub class: ControlClass,
    /// Type-specific payload (current value plus range / options).
    pub kind: ControlKind,
}

/// V4L2 control class: the two the UI groups by, plus any other.
#[derive(Debug, Clone, Copy, PartialEq, Eq, Structural)]
#[non_exhaustive]
pub enum ControlClass {
    /// `V4L2_CTRL_CLASS_USER` (`0x0098_0000`).
    User,
    /// `V4L2_CTRL_CLASS_CAMERA` (`0x009A_0000`).
    Camera,
    /// Any other class (`0xXXXX_0000`).
    Other(u32),
}

/// Type-shaped view of a control's current value plus range or options.
#[derive(Debug, Clone, PartialEq, Eq)]
#[non_exhaustive]
pub enum ControlKind {
    /// Integer-valued control.
    Integer {
        /// Currently read-back value.
        current: i64,
        /// Inclusive minimum.
        min: i64,
        /// Inclusive maximum.
        max: i64,
        /// Step between valid values.
        step: u64,
        /// Driver-advertised default value.
        default: i64,
    },
    /// Boolean toggle.
    Boolean {
        /// Currently read-back value.
        current: bool,
        /// Driver-advertised default value.
        default: bool,
    },
    /// Menu of named items (regular or integer menu).
    Menu {
        /// Label for the currently selected item.
        current_label: String,
        /// All option labels in driver order.
        options: Vec<String>,
    },
    /// Anything else, carrying the V4L2 type name.
    Other(String),
}

/// Value payload accepted by a control write.
#[derive(Debug, Clone, Copy, PartialEq, Eq, Structural)]
#[non_exhaustive]
pub enum ControlValue {
    /// Integer-valued write.
    Integer(i64),
    /// Boolean toggle.
    Boolean(bool),
}

/// V4L2 control type as the driver reports it.
#[derive(Debug, Clone, Copy, PartialEq, Eq, Structural)]
pub enum ControlType {
    /// `V4L2_CTRL_TYPE_INTEGER`.
    Integer,
    /// `V4L2_CTRL_TYPE_BOOLEAN`.
    Boolean,
    /// `V4L2_CTRL_TYPE_MENU`.
    Menu,
    /// `V4L2_CTRL_TYPE_BUTTON`.
    Button,
    /// `V4L2_CTRL_TYPE_INTEGER64`.
    Integer64,
    /// `V4L2_CTRL_TYPE_CTRL_CLASS`.
    CtrlClass,
    /// `V4L2_CTRL_TYPE_STRING`.
    String,
    /// `V4L2_CTRL_TYPE_BITMASK`.
    Bitmask,
    /// `V4L2_CTRL_TYPE_INTEGER_MENU`.
    IntegerMenu,
    /// `V4L2_CTRL_TYPE_U8`.
    U8,
    /// `V4L2_CTRL_TYPE_U16`.
    U16,
    /// `V4L2_CTRL_TYPE_U32`.
    U32,
    /// `V4L2_CTRL_TYPE_AREA`.
    Area,
}

/// One menu entry: a name (regular menu) or a value (integer menu).
#[derive(Debug, Clone, PartialEq, Eq)]
pub enum MenuItem {
    /// Named entry of a regular menu.
    Name(String),
    /// Value of an integer menu.
    Value(i64),
}

/// A control as the driver advertises it.
#[derive(Debug, Clone, PartialEq, Eq)]
pub struct ControlDescription {
    /// Raw V4L2 control ID.
    pub id: u32,
    /// Control type.
    pub typ: ControlType,
    /// Driver-reported name.
    pub name: String,
    /// Inclusive minimum.
    pub minimum: i64,
    /// Inclusive maximum.
    pub maximum: i64,
    /// Step between valid values.
    pub step: u64,
    /// Default value.
    pub default: i64,
    /// `V4L2_CTRL_FLAG_DISABLED` is set.
    pub disabled: bool,
    /// `V4L2_CTRL_FLAG_WRITE_ONLY` is set.
    pub write_only: bool,
    /// Menu entries with their indices, for menu controls.
    pub items: Option<Vec<(u32, MenuItem)>>,
}

/// The class a control ID belongs to: V4L2 packs it into the high 16
/// bits of the ID.
pub open spec fn class_of(id: u32) -> ControlClass {
    let class = id & 0xFFFF_0000u32;
    if class == V4L2_CTRL_CLASS_USER {
        ControlClass::User
    } else if class == V4L2_CTRL_CLASS_CAMERA {
        ControlClass::Camera
    } else {
        ControlClass::Other(class)
    }
}

/// Map a V4L2 control ID to its [`ControlClass`].
pub fn classify(id: u32) -> (r: ControlClass)
    ensures
        r == class_of(id),
{
    let class = id & 0xFFFF_0000u32;
    if class == V4L2_CTRL_CLASS_USER {
        ControlClass::User
    } else if class == V4L2_CTRL_CLASS_CAMERA {
        ControlClass::Camera
    } else {
        ControlClass::Other(class)
    }
}

/// Whether an advertised control is listed: class markers, disabled
/// controls and write-only controls are skipped.
pub open spec fn listed_spec(d: ControlDescription) -> bool {
    d.typ != ControlType::CtrlClass && !d.disabled && !d.write_only
}

/// Whether an advertised control is listed.
pub fn is_listed(d: &ControlDescription) -> (r: bool)
    ensures
        r == listed_spec(*d),
{
    !matches!(d.typ, ControlType::CtrlClass) && !d.disabled && !d.write_only
}

/// The debug name of a control type, as `{:?}` prints it.
pub open spec fn control_type_name(t: ControlType) -> Seq<char> {
    match t {
        ControlType::Integer => "Integer"@,
        ControlType::Boolean => "Boolean"@,
        ControlType::Menu => "Menu"@,
        ControlType::Button => "Button"@,
        ControlType::Integer64 => "Integer64"@,
        ControlType::CtrlClass => "CtrlClass"@,
        ControlType::String => "String"@,
        ControlType::Bitmask => "Bitmask"@,
        ControlType::IntegerMenu => "IntegerMenu"@,
        ControlType::U8 => "U8"@,
        ControlType::U16 => "U16"@,
        ControlType::U32 => "U32"@,
        ControlType::Area => "Area"@,
    }
}

impl ControlType {
    /// The debug name of this control type.
    pub fn name(&self) -> (r: String)
        ensures
            r@ == control_type_name(*self),
    {
        match self {
            ControlType::Integer => String::from_str("Integer"),
            ControlType::Boolean => String::from_str("Boolean"),
            ControlType::Menu => String::from_str("Menu"),
            ControlType::Button => String::from_str("Button"),
            ControlType::Integer64 => String::from_str("Integer64"),
            ControlType::CtrlClass => String::from_str("CtrlClass"),
            ControlType::String => String::from_str("String"),
            ControlType::Bitmask => String::from_str("Bitmask"),
            ControlType::IntegerMenu => String::from_str("IntegerMenu"),
            ControlType::U8 => String::from_str("U8"),
            ControlType::U16 => String::from_str("U16"),
            ControlType::U32 => String::from_str("U32"),
            ControlType::Area => String::from_str("Area"),
        }
    }
}

/// The label of a menu entry: its name, or its value in decimal.
pub open spec fn item_text(item: MenuItem) -> Seq<char> {
    match item {
        MenuItem::Name(s) => s@,
        MenuItem::Value(v) => signed_decimal(v as int),
    }
}

/// The label of the first entry whose index equals `index`, or `index`
/// itself in decimal when no entry matches.
pub open spec fn menu_label(items: Seq<(u32, MenuItem)>, index: i64) -> Seq<char>
    decreases items.len(),
{
    if items.len() == 0 {
        signed_decimal(index as int)
    } else if items[0].0 as int == index as int {
        item_text(items[0].1)
    } else {
        menu_label(items.drop_first(), index)
    }
}

/// The entries of an optional menu, empty when there is none.
pub open spec fn items_of(items: Option<Vec<(u32, MenuItem)>>) -> Seq<(u32, MenuItem)> {
    match items {
        Some(v) => v@,
        None => Seq::empty(),
    }
}

/// Whether `kind` is the reshaping of `d` given the value read back for
/// it (`None` when the read failed): a failed read falls back to the
/// advertised default.
pub open spec fn kind_matches(d: ControlDescription, read: Option<i64>, kind: ControlKind) -> bool {
    let current = match read {
        Some(v) => v,
        None => d.default,
    };
    match d.typ {
        ControlType::Integer | ControlType::Integer64 => kind == ControlKind::Integer {
            current,
            min: d.minimum,
            max: d.maximum,
            step: d.step,
            default: d.default,
        },
        ControlType::Boolean => kind == ControlKind::Boolean {
            current: current != 0,
            default: d.default != 0,
        },
        ControlType::Menu | ControlType::IntegerMenu => match kind {
            ControlKind::Menu { current_label, options } => {
                &&& current_label@ == menu_label(items_of(d.items), current)
                &&& options@.len() == items_of(d.items).len()
                &&& forall|i: int|
                    0 <= i < options@.len() ==> #[trigger] options@[i]@ == item_text(
                        items_of(d.items)[i].1,
                    )
            },
            _ => false,
        },
        _ => match kind {
            ControlKind::Other(name) => name@ == control_type_name(d.typ),
            _ => false,
        },
    }
}

/// The label text of one menu entry.
pub fn item_label(item: &MenuItem) -> (r: String)
    ensures
        r@ == item_text(*item),
{
    match item {
        MenuItem::Name(s) => s.clone(),
        MenuItem::Value(v) => {
            let mut out = String::new();
            push_signed_decimal(&mut out, *v);
            out
        },
    }
}

/// Label of the selected entry of a menu.
pub fn current_menu_label(items: &Vec<(u32, MenuItem)>, index: i64) -> (r: String)
    ensures
        r@ == menu_label(items@, index),
{
    let mut i: usize = 0;
    assert(items@.skip(0) =~= items@);
    while i < items.len()
        invariant
            i <= items@.len(),
            menu_label(items@, index) == menu_label(items@.skip(i as int), index),
        decreases items@.len() - i,
    {
        assert(items@.skip(i as int)[0] == items@[i as int]);
        if items[i].0 as i64 == index {
            return item_label(&items[i].1);
        }
        assert(items@.skip(i as int).drop_first() =~= items@.skip(i + 1));
        i = i + 1;
    }
    let mut out = String::new();
    push_signed_decimal(&mut out, index);
    out
}

/// Labels of every menu entry, in driver order.
pub fn menu_options(items: &Vec<(u32, MenuItem)>) -> (r: Vec<String>)
    ensures
        r@.len() == items@.len(),
        forall|i: int| 0 <= i < r@.len() ==> #[trigger] r@[i]@ == item_text(items@[i].1),
{
    let mut out: Vec<String> = Vec::new();
    let mut i: usize = 0;
    while i < items.len()
        invariant
            i <= items@.len(),
            out@.len() == i,
            forall|j: int| 0 <= j < i ==> #[trigger] out@[j]@ == item_text(items@[j].1),
        decreases items@.len() - i,
    {
        out.push(item_label(&items[i].1));
        i = i + 1;
    }
    out
}

/// Build the type-shaped [`ControlKind`] for a control, given the value
/// read back for it (`None` when the read failed, in which case the
/// advertised default stands in).
pub fn build_kind(d: &ControlDescription, read: Option<i64>) -> (r: ControlKind)
    ensures
        kind_matches(*d, read, r),
{
    let current = match read {
        Some(v) => v,
        None => d.default,
    };
    match d.typ {
        ControlType::Integer | ControlType::Integer64 => ControlKind::Integer {
            current,
            min: d.minimum,
            max: d.maximum,
            step: d.step,
            default: d.default,
        },
        ControlType::Boolean => ControlKind::Boolean {
            current: current != 0,
            default: d.default != 0,
        },
        ControlType::Menu | ControlType::IntegerMenu => {
            match &d.items {
                Some(items) => {
                    let options = menu_options(items);
                    let current_label = current_menu_label(items, current);
                    ControlKind::Menu { current_label, options }
                },
                None => {
                    let mut label = String::new();
                    push_signed_decimal(&mut label, current);
                    let options: Vec<String> = Vec::new();
                    assert(options@.len() == 0);
                    ControlKind::Menu { current_label: label, options }
                },
            }
        },
        _ => ControlKind::Other(d.typ.name()),
    }
}

/// Reshape one advertised control, given the value read back for it.
pub fn describe(d: &ControlDescription, read: Option<i64>) -> (r: ControlDescriptor)
    ensures
        r.id == d.id,
        r.name@ == d.name@,
        r.class == class_of(d.id),
        kind_matches(*d, read, r.kind),
{
    ControlDescriptor { id: d.id, name: d.name.clone(), class: classify(d.id), kind: build_kind(d, read) }
}

/// A control is listed exactly when it is not a class marker, not
/// disabled and not write-only: so every enabled, readable control of
/// any other type (integer, boolean, menu, button, string, ...) is
/// listed.
pub proof fn lemma_listed_controls(d: ControlDescription)
    ensures
        listed_spec(d) <==> (d.typ != ControlType::CtrlClass && !d.disabled && !d.write_only),
        d.typ == ControlType::CtrlClass || d.disabled || d.write_only ==> !listed_spec(d),
        !d.disabled && !d.write_only && (d.typ == ControlType::Integer || d.typ
            == ControlType::Integer64 || d.typ == ControlType::Boolean || d.typ
            == ControlType::Menu || d.typ == ControlType::IntegerMenu) ==> listed_spec(d),
{
}

/// V4L2 keeps a control's class in the upper 16 bits of its ID: the
/// IDs `0x0098_0000..=0x0098_ffff` are user controls, the IDs
/// `0x009a_0000..=0x009a_ffff` camera controls, and any other ID is of
/// the class its upper 16 bits name.
pub proof fn lemma_class_ranges(id: u32)
    ensures
        (class_of(id) == ControlClass::User) <==> (0x0098_0000 <= id <= 0x0098_ffff),
        (class_of(id) == ControlClass::Camera) <==> (0x009a_0000 <= id <= 0x009a_ffff),
        class_of(id) matches ControlClass::Other(c) ==> c == id - id % 0x1_0000 && c != 0x0098_0000
            && c != 0x009a_0000,
{
    assert(id & 0xFFFF_0000u32 == id - id % 0x1_0000) by (bit_vector);
}

/// A control's shape follows its type. Integer controls carry the value
/// read back (the default when the read failed) with the advertised
/// range, step and default; boolean controls are on when that value is
/// non-zero; menu controls list every entry's label in driver order and
/// label the current value by its entry (by the number itself when no
/// entry has that index); any other type carries its type name.
pub proof fn lemma_kind_by_type(d: ControlDescription, read: Option<i64>, kind: ControlKind)
    requires
        kind_matches(d, read, kind),
    ensures
        ({
            let current = match read {
                Some(v) => v,
                None => d.default,
            };
            &&& (d.typ == ControlType::Integer || d.typ == ControlType::Integer64) ==> kind
                == (ControlKind::Integer {
                current: current,
                min: d.minimum,
                max: d.maximum,
                step: d.step,
                default: d.default,
            })
            &&& d.typ == ControlType::Boolean ==> kind == (ControlKind::Boolean {
                current: current != 0,
                default: d.default != 0,
            })
            &&& (d.typ == ControlType::Menu || d.typ == ControlType::IntegerMenu) ==> (kind matches ControlKind::Menu { current_label, options } && options@.len() == items_of(d.items).len()
                && (forall|i: int|
                0 <= i < options@.len() ==> match #[trigger] items_of(d.items)[i].1 {
                    MenuItem::Name(n) => options@[i]@ == n@,
                    MenuItem::Value(v) => options@[i]@ == signed_decimal(v as int),
                }) && ((forall|i: int|
                0 <= i < items_of(d.items).len() ==> #[trigger] items_of(d.items)[i].0 as int
                    != current as int) ==> current_label@ == signed_decimal(current as int)) && (
            forall|i: int|
                #![trigger items_of(d.items)[i]]
                0 <= i < items_of(d.items).len() && items_of(d.items)[i].0 as int == current as int
                    && (forall|j: int|
                    0 <= j < i ==> #[trigger] items_of(d.items)[j].0 as int != current as int)
                    ==> current_label@ == match items_of(d.items)[i].1 {
                    MenuItem::Name(n) => n@,
                    MenuItem::Value(v) => signed_decimal(v as int),
                }))
            &&& !(d.typ == ControlType::Integer || d.typ == ControlType::Integer64 || d.typ
                == ControlType::Boolean || d.typ == ControlType::Menu || d.typ
                == ControlType::IntegerMenu) ==> (kind matches ControlKind::Other(name) && name@
                == control_type_name(d.typ))
        }),
{
    let current = match read {
        Some(v) => v,
        None => d.default,
    };
    if d.typ == ControlType::Menu || d.typ == ControlType::IntegerMenu {
        lemma_menu_label_fallback(items_of(d.items), current);
    }
}

proof fn lemma_menu_label_fallback(items: Seq<(u32, MenuItem)>, index: i64)
    ensures
        (forall|i: int| 0 <= i < items.len() ==> #[trigger] items[i].0 as int != index as int)
            ==> menu_label(items, index) == signed_decimal(index as int),
        forall|i: int|
            #![trigger items[i]]
            0 <= i < items.len() && items[i].0 as int == index as int && (forall|j: int|
                0 <= j < i ==> #[trigger] items[j].0 as int != index as int) ==> menu_label(
                items,
                index,
            ) == item_text(items[i].1),
    decreases items.len(),
{
    if items.len() > 0 {
        let rest = items.drop_first();
        lemma_menu_label_fallback(rest, index);
        if forall|i: int| 0 <= i < items.len() ==> #[trigger] items[i].0 as int != index as int {
            assert forall|i: int| 0 <= i < rest.len() implies #[trigger] rest[i].0 as int
                != index as int by {
                assert(rest[i] == items[i + 1]);
            }
        }
        assert forall|i: int|
            #![trigger items[i]]
            0 <= i < items.len() && items[i].0 as int == index as int && (forall|j: int|
                0 <= j < i ==> #[trigger] items[j].0 as int != index as int) implies menu_label(
            items,
            index,
        ) == item_text(items[i].1) by {
            if i > 0 {
                assert(items[0].0 as int != index as int);
                assert(rest[i - 1] == items[i]);
                assert forall|j: int| 0 <= j < i - 1 implies #[trigger] rest[j].0 as int
                    != index as int by {
                    assert(rest[j] == items[j + 1]);
                }
            }
        }
    }
}

/// The name a control type is shown by is the V4L2 binding's name of
/// that type, letter for letter.
pub proof fn lemma_type_names()
    ensures
        control_type_name(ControlType::Integer) == seq!['I', 'n', 't', 'e', 'g', 'e', 'r'],
        control_type_name(ControlType::Boolean) == seq!['B', 'o', 'o', 'l', 'e', 'a', 'n'],
        control_type_name(ControlType::Menu) == seq!['M', 'e', 'n', 'u'],
        control_type_name(ControlType::Button) == seq!['B', 'u', 't', 't', 'o', 'n'],
        control_type_name(ControlType::Integer64) == seq!['I', 'n', 't', 'e', 'g', 'e', 'r', '6', '4'],
        control_type_name(ControlType::CtrlClass) == seq!['C', 't', 'r', 'l', 'C', 'l', 'a', 's', 's'],
        control_type_name(ControlType::String) == seq!['S', 't', 'r', 'i', 'n', 'g'],
        control_type_name(ControlType::Bitmask) == seq!['B', 'i', 't', 'm', 'a', 's', 'k'],
        control_type_name(ControlType::IntegerMenu) == seq!['I', 'n', 't', 'e', 'g', 'e', 'r', 'M', 'e', 'n', 'u'],
        control_type_name(ControlType::U8) == seq!['U', '8'],
        control_type_name(ControlType::U16) == seq!['U', '1', '6'],
        control_type_name(ControlType::U32) == seq!['U', '3', '2'],
        control_type_name(ControlType::Area) == seq!['A', 'r', 'e', 'a'],
{
    reveal_strlit("Integer");
    reveal_strlit("Boolean");
    reveal_strlit("Menu");
    reveal_strlit("Button");
    reveal_strlit("Integer64");
    reveal_strlit("CtrlClass");
    reveal_strlit("String");
    reveal_strlit("Bitmask");
    reveal_strlit("IntegerMenu");
    reveal_strlit("U8");
    reveal_strlit("U16");
    reveal_strlit("U32");
    reveal_strlit("Area");
}

} // verus!
