use crate::board::board_def::{spec_channel, Def, Func, PinLevel, Port};
use crate::board::board_gen::{
    all_supported, def_supported, derive_hw_config, gpio_port_prefix, spec_gpio_port_prefix, spec_hw_config,
};
use crate::text::{
    decimal_text, spec_decimal, spec_to_uppercase, str_equal, upper_case,
};
use vstd::prelude::*;

verus! {

/// The kinds of per-signal text that the generated files hold.
#[derive(Clone, Copy)]
pub enum LineKind {
    /// An enumerator of `BoardSignal` in the C header.
    HeaderEnum,
    /// An entry of `BOARD_MAP_DEFAULT` in the C source.
    SourceDefault,
    /// A `case` of `board_signal_get_channel` in the C source.
    SourceChannel,
    /// The pin set-up calls of `board_gpio_init_all` in the C source.
    SourceInit,
    /// A variant of `BoardSignal` in the Rust bindings.
    RustVariant,
    /// A match arm of `BoardSignal::channel` in the Rust bindings.
    RustChannel,
}

/// `BOARD_SIGNAL_` followed by the signal's name in upper case.
pub open spec fn spec_signal_enum(name: Seq<char>) -> Seq<char> {
    "BOARD_SIGNAL_"@ + spec_to_uppercase(name)
}

/// The peripheral-library name of a pin's bit mask.
pub open spec fn spec_pin_mask(pin: u8) -> Seq<char> {
    "GPIO_Pin_"@ + spec_decimal(pin as nat)
}

/// The C name of a GPIO port's group.
pub open spec fn spec_group_name(port: Port) -> Seq<char> {
    match port {
        Port::A => "BOARD_GPIO_GROUP_A"@,
        Port::B => "BOARD_GPIO_GROUP_B"@,
    }
}

/// The start-up calls for one signal: enable its digital input where its
/// configuration asks for it, set its mode, and drive an output to its
/// initial level where it has one.
pub open spec fn spec_init_lines(def: Def) -> Seq<char> {
    let hw = spec_hw_config(def.pin.0, def.pin.1, def.func).unwrap();
    let pre = spec_gpio_port_prefix(def.pin.0)@;
    let pin = spec_pin_mask(def.pin.1);
    let digital = if hw.digital {
        "    "@ + pre + "DigitalCfg(ENABLE, "@ + pin + ");\n"@
    } else {
        Seq::empty()
    };
    let mode = "    "@ + pre + "_ModeCfg("@ + pin + ", "@ + hw.mode@ + ");\n"@;
    let level = match def.func {
        Func::Out { init: Some(PinLevel::Low), .. } => "    "@ + pre + "_ResetBits("@ + pin + ");\n"@,
        Func::Out { init: Some(PinLevel::High), .. } => "    "@ + pre + "_SetBits("@ + pin + ");\n"@,
        _ => Seq::empty(),
    };
    digital + mode + level
}

/// The text that one signal contributes to a generated file.
pub open spec fn line_of(kind: LineKind, def: Def) -> Seq<char> {
    match kind {
        LineKind::HeaderEnum => "    "@ + spec_signal_enum(def.name@) + ",\n"@,
        LineKind::SourceDefault => "    ["@ + spec_signal_enum(def.name@) + "] = { .group = "@
            + spec_group_name(def.pin.0) + ", .pin = "@ + spec_pin_mask(def.pin.1) + " },\n"@,
        LineKind::SourceChannel => match spec_channel(def.func) {
            Some(ch) => "        case "@ + spec_signal_enum(def.name@) + ": return "@
                + spec_decimal(ch as nat) + ";\n"@,
            None => Seq::empty(),
        },
        LineKind::SourceInit => spec_init_lines(def),
        LineKind::RustVariant => "    "@ + spec_to_uppercase(def.name@) + ",\n"@,
        LineKind::RustChannel => match spec_channel(def.func) {
            Some(ch) => "            BoardSignal::"@ + spec_to_uppercase(def.name@) + " => "@
                + spec_decimal(ch as nat) + ",\n"@,
            None => Seq::empty(),
        },
    }
}

/// The text of all signals of one kind, in signal order.
pub open spec fn lines_of(defs: Seq<Def>, kind: LineKind) -> Seq<char>
    decreases defs.len(),
{
    if defs.len() == 0 {
        Seq::empty()
    } else {
        lines_of(defs.drop_last(), kind) + line_of(kind, defs.last())
    }
}

proof fn lemma_lines_of_step(defs: Seq<Def>, kind: LineKind, i: int)
    requires
        0 <= i < defs.len(),
    ensures
        lines_of(defs.take(i + 1), kind) == lines_of(defs.take(i), kind) + line_of(kind, defs[i]),
{
    assert(defs.take(i + 1).drop_last() =~= defs.take(i));
}

/// The call that sets one pin-remap register.
pub open spec fn spec_remap_line(reg: Seq<char>, enabled: bool) -> Seq<char> {
    "    GPIOPinRemap("@ + (if enabled {
        "ENABLE"@
    } else {
        "DISABLE"@
    }) + ", "@ + reg + ");\n"@
}

/// The remap register setting that a signal's configuration names.
#[verifier::opaque]
pub open spec fn def_remap(def: Def) -> Option<(&'static str, bool)> {
    spec_hw_config(def.pin.0, def.pin.1, def.func).unwrap().remap
}

/// One signal's effect on the remap section: the first signal that names a
/// remap register sets it; later ones that name the same register add
/// nothing. The state is the text so far and the registers already set.
pub open spec fn remap_step(st: (Seq<char>, Seq<Seq<char>>), def: Def) -> (Seq<char>, Seq<Seq<char>>) {
    match def_remap(def) {
        Some((reg, enabled)) => if st.1.contains(reg@) {
            st
        } else {
            (st.0 + spec_remap_line(reg@, enabled), st.1.push(reg@))
        },
        None => st,
    }
}

/// The remap section for the given signals, and the registers it sets.
pub open spec fn remap_fold(defs: Seq<Def>) -> (Seq<char>, Seq<Seq<char>>)
    decreases defs.len(),
{
    if defs.len() == 0 {
        (Seq::empty(), Seq::empty())
    } else {
        remap_step(remap_fold(defs.drop_last()), defs.last())
    }
}

/// The remap section sets each register at most once: the registers it
/// sets are all different.
pub proof fn lemma_remap_registers_distinct(defs: Seq<Def>)
    ensures
        forall|i: int, j: int|
            0 <= i < j < remap_fold(defs).1.len() ==> remap_fold(defs).1[i] != remap_fold(
                defs,
            ).1[j],
    decreases defs.len(),
{
    if defs.len() > 0 {
        lemma_remap_registers_distinct(defs.drop_last());
        let prev = remap_fold(defs.drop_last());
        let next = remap_fold(defs);
        assert forall|i: int, j: int| 0 <= i < j < next.1.len() implies next.1[i] != next.1[j] by {
            if j == prev.1.len() {
                assert(prev.1[i] == next.1[i]);
                assert(prev.1.contains(prev.1[i]));
            }
        }
    }
}

/// The characters of each name.
pub open spec fn names_view(names: Seq<&'static str>) -> Seq<Seq<char>> {
    names.map_values(|n: &'static str| n@)
}

pub const C_HEADER_START: &'static str = "// 自动生成，勿手动编辑\n\n#ifndef VOIDPOINTER_BOARD_MAP_H\n#define VOIDPOINTER_BOARD_MAP_H\n\n#include <stdint.h>\n#include <stdbool.h>\n\n#ifdef __cplusplus\nextern \"C\" {\n#endif\n\ntypedef enum {\n    BOARD_GPIO_GROUP_NONE = 0,\n    BOARD_GPIO_GROUP_A = 1,\n    BOARD_GPIO_GROUP_B = 2,\n} BoardGpioGroup;\n\ntypedef struct {\n    BoardGpioGroup group;\n    uint32_t       pin;\n} BoardGpio;\n\ntypedef enum {\n";

pub const C_HEADER_END: &'static str = "    BOARD_SIGNAL_COUNT,\n} BoardSignal;\n\nBoardGpio board_signal_get(BoardSignal sig);\nbool      board_signal_is_present(BoardSignal sig);\n\nextern const BoardGpio BOARD_MAP_DEFAULT[BOARD_SIGNAL_COUNT];\nextern BoardGpio       BOARD_MAP_CURRENT[BOARD_SIGNAL_COUNT];\n\nvoid board_remap_reset(void);\nvoid board_remap_apply(const BoardGpio mapping[BOARD_SIGNAL_COUNT]);\nvoid board_gpio_init_all(void);\nuint8_t board_signal_get_channel(BoardSignal sig);\n\n#ifdef __cplusplus\n}\n#endif\n\n#endif\n";

pub const C_SOURCE_START: &'static str = "// 自动生成，勿手动编辑\n\n#include \"board_map.h\"\n#include \"CH58x_common.h\"\n\nconst BoardGpio BOARD_MAP_DEFAULT[BOARD_SIGNAL_COUNT] = {\n";

pub const C_SOURCE_AFTER_DEFAULTS: &'static str = "};\n\nBoardGpio BOARD_MAP_CURRENT[BOARD_SIGNAL_COUNT];\n\nBoardGpio board_signal_get(BoardSignal sig) {\n    if (sig >= BOARD_SIGNAL_COUNT) {\n        return (BoardGpio){ .group = BOARD_GPIO_GROUP_NONE, .pin = 0u };\n    }\n    return BOARD_MAP_CURRENT[sig];\n}\n\nbool board_signal_is_present(BoardSignal sig) {\n    if (sig >= BOARD_SIGNAL_COUNT) {\n        return false;\n    }\n    const BoardGpio g = BOARD_MAP_CURRENT[sig];\n    return g.group != BOARD_GPIO_GROUP_NONE && g.pin != 0u;\n}\n\nvoid board_remap_reset(void) {\n    for (int i = 0; i < BOARD_SIGNAL_COUNT; i++) {\n        BOARD_MAP_CURRENT[i] = BOARD_MAP_DEFAULT[i];\n    }\n}\n\nvoid board_remap_apply(const BoardGpio mapping[BOARD_SIGNAL_COUNT]) {\n    for (int i = 0; i < BOARD_SIGNAL_COUNT; i++) {\n        BOARD_MAP_CURRENT[i] = mapping[i];\n    }\n}\n\nuint8_t board_signal_get_channel(BoardSignal sig) {\n    switch (sig) {\n";

pub const C_SOURCE_AFTER_CHANNELS: &'static str = "        default: return 0;\n    }\n}\n\nvoid board_gpio_init_all(void) {\n    board_remap_reset();\n\n";

pub const C_SOURCE_END: &'static str = "}\n";

pub const RUST_START: &'static str = "// 自动生成，勿手动编辑\n\n#[repr(C)]\n#[derive(Debug, Clone, Copy)]\npub struct BoardGpio {\n    pub group: u32,\n    pub pin: u32,\n}\n\npub const BOARD_SIGNAL_COUNT: usize = ";

pub const RUST_AFTER_COUNT: &'static str = ";\n\n#[allow(non_camel_case_types)]\n#[repr(u8)]\n#[derive(Debug, Clone, Copy, PartialEq, Eq)]\npub enum BoardSignal {\n";

pub const RUST_AFTER_VARIANTS: &'static str = "}\n\nimpl BoardSignal {\n    pub fn channel(self) -> u8 {\n        match self {\n";

pub const RUST_END: &'static str = "            _ => 0,\n        }\n    }\n}\n\nunsafe extern \"C\" {\n    pub static BOARD_MAP_DEFAULT: [BoardGpio; BOARD_SIGNAL_COUNT];\n    pub static mut BOARD_MAP_CURRENT: [BoardGpio; BOARD_SIGNAL_COUNT];\n    pub fn board_signal_get(sig: BoardSignal) -> BoardGpio;\n    pub fn board_signal_is_present(sig: BoardSignal) -> bool;\n    pub fn board_signal_get_channel(sig: BoardSignal) -> u8;\n    pub fn board_remap_reset();\n    pub fn board_remap_apply(mapping: *const BoardGpio);\n    pub fn board_gpio_init_all();\n}\n";

/// The C header `board_map.h` for the given signals.
pub open spec fn spec_c_header(defs: Seq<Def>) -> Seq<char> {
    C_HEADER_START@ + lines_of(defs, LineKind::HeaderEnum) + C_HEADER_END@
}

/// The C source `board_map_gen.c` for the given signals.
pub open spec fn spec_c_source(defs: Seq<Def>) -> Seq<char> {
    let remap = remap_fold(defs);
    C_SOURCE_START@ + lines_of(defs, LineKind::SourceDefault) + C_SOURCE_AFTER_DEFAULTS@
        + lines_of(defs, LineKind::SourceChannel) + C_SOURCE_AFTER_CHANNELS@ + remap.0 + (if remap.1.len() > 0 {
        "\n"@
    } else {
        Seq::empty()
    }) + lines_of(defs, LineKind::SourceInit) + C_SOURCE_END@
}

/// The Rust bindings `board_map_rust.rs` for the given signals.
pub open spec fn spec_rust_bindings(defs: Seq<Def>) -> Seq<char> {
    RUST_START@ + spec_decimal(defs.len()) + RUST_AFTER_COUNT@ + lines_of(defs, LineKind::RustVariant)
        + RUST_AFTER_VARIANTS@ + lines_of(defs, LineKind::RustChannel) + RUST_END@
}

/// The C enumerator name of a board signal.
pub fn signal_name_to_enum(name: &str) -> (s: String)
    ensures
        s@ == spec_signal_enum(name@),
{
    let mut s = String::from_str("BOARD_SIGNAL_");
    let upper = upper_case(name);
    s.append(upper.as_str());
    s
}

/// The peripheral-library name of a pin's bit mask.
pub fn pin_mask(pin: u8) -> (s: String)
    ensures
        s@ == spec_pin_mask(pin),
{
    let mut s = String::from_str("GPIO_Pin_");
    let digits = decimal_text(pin as u64);
    s.append(digits.as_str());
    s
}

/// Appends the start-up calls of one signal.
fn push_init_lines(s: &mut String, def: &Def)
    requires
        def_supported(*def),
    ensures
        final(s)@ == old(s)@ + spec_init_lines(*def),
{
    let hw = derive_hw_config(def);
    let pre = gpio_port_prefix(def.port());
    let pin = pin_mask(def.pin_num());
    let ghost start = s@;
    if hw.digital {
        s.append("    ");
        s.append(pre);
        s.append("DigitalCfg(ENABLE, ");
        s.append(pin.as_str());
        s.append(");\n");
    }
    let ghost after_digital = s@;
    s.append("    ");
    s.append(pre);
    s.append("_ModeCfg(");
    s.append(pin.as_str());
    s.append(", ");
    s.append(hw.mode);
    s.append(");\n");
    let ghost after_mode = s@;
    match def.func {
        Func::Out { init: Some(level), .. } => match level {
            PinLevel::Low => {
                s.append("    ");
                s.append(pre);
                s.append("_ResetBits(");
                s.append(pin.as_str());
                s.append(");\n");
            },
            PinLevel::High => {
                s.append("    ");
                s.append(pre);
                s.append("_SetBits(");
                s.append(pin.as_str());
                s.append(");\n");
            },
        },
        _ => {},
    }
    proof {
        let pre_v = spec_gpio_port_prefix(def.pin.0)@;
        let pin_v = spec_pin_mask(def.pin.1);
        let digital = if hw.digital {
            "    "@ + pre_v + "DigitalCfg(ENABLE, "@ + pin_v + ");\n"@
        } else {
            Seq::<char>::empty()
        };
        let mode = "    "@ + pre_v + "_ModeCfg("@ + pin_v + ", "@ + hw.mode@ + ");\n"@;
        assert(after_digital =~= start + digital);
        assert(after_mode =~= after_digital + mode);
        assert(s@ =~= start + spec_init_lines(*def));
    }
}

/// Appends the text that one signal contributes to a generated file.
fn push_line(s: &mut String, kind: LineKind, def: &Def)
    requires
        kind is SourceInit ==> def_supported(*def),
    ensures
        final(s)@ == old(s)@ + line_of(kind, *def),
{
    let ghost start = s@;
    match kind {
        LineKind::HeaderEnum => {
            let name = signal_name_to_enum(def.name);
            s.append("    ");
            s.append(name.as_str());
            s.append(",\n");
        },
        LineKind::SourceDefault => {
            let name = signal_name_to_enum(def.name);
            let group = match def.port() {
                Port::A => "BOARD_GPIO_GROUP_A",
                Port::B => "BOARD_GPIO_GROUP_B",
            };
            let pin = pin_mask(def.pin_num());
            s.append("    [");
            s.append(name.as_str());
            s.append("] = { .group = ");
            s.append(group);
            s.append(", .pin = ");
            s.append(pin.as_str());
            s.append(" },\n");
        },
        LineKind::SourceChannel => {
            if let Some(ch) = def.channel() {
                let name = signal_name_to_enum(def.name);
                let digits = decimal_text(ch as u64);
                s.append("        case ");
                s.append(name.as_str());
                s.append(": return ");
                s.append(digits.as_str());
                s.append(";\n");
            }
        },
        LineKind::SourceInit => {
            push_init_lines(s, def);
        },
        LineKind::RustVariant => {
            let variant = upper_case(def.name);
            s.append("    ");
            s.append(variant.as_str());
            s.append(",\n");
        },
        LineKind::RustChannel => {
            if let Some(ch) = def.channel() {
                let variant = upper_case(def.name);
                let digits = decimal_text(ch as u64);
                s.append("            BoardSignal::");
                s.append(variant.as_str());
                s.append(" => ");
                s.append(digits.as_str());
                s.append(",\n");
            }
        },
    }
    assert(s@ =~= start + line_of(kind, *def));
}

/// Appends the text of all signals of one kind, in signal order.
fn push_lines(s: &mut String, defs: &[Def], kind: LineKind)
    requires
        kind is SourceInit ==> all_supported(defs@),
    ensures
        final(s)@ == old(s)@ + lines_of(defs@, kind),
{
    let ghost start = s@;
    let mut i: usize = 0;
    while i < defs.len()
        invariant
            i <= defs.len(),
            kind is SourceInit ==> all_supported(defs@),
            s@ == start + lines_of(defs@.take(i as int), kind),
        decreases defs.len() - i,
    {
        let ghost before = s@;
        push_line(s, kind, &defs[i]);
        proof {
            lemma_lines_of_step(defs@, kind, i as int);
            assert(s@ =~= start + lines_of(defs@.take(i + 1), kind));
        }
        i += 1;
    }
    assert(defs@.take(defs.len() as int) =~= defs@);
}

/// Whether `name` is among `names`.
fn contains_name(names: &Vec<&'static str>, name: &str) -> (found: bool)
    ensures
        found == names_view(names@).contains(name@),
{
    let mut j: usize = 0;
    while j < names.len()
        invariant
            j <= names.len(),
            forall|k: int| 0 <= k < j ==> names@[k]@ != name@,
        decreases names.len() - j,
    {
        if str_equal(names[j], name) {
            assert(names_view(names@)[j as int] == name@);
            return true;
        }
        j += 1;
    }
    assert(!names_view(names@).contains(name@)) by {
        if names_view(names@).contains(name@) {
            let k = choose|k: int| 0 <= k < names_view(names@).len() && names_view(names@)[k] == name@;
            assert(names@[k]@ == name@);
        }
    }
    false
}

proof fn lemma_remap_fold_step(defs: Seq<Def>, i: int)
    requires
        0 <= i < defs.len(),
    ensures
        remap_fold(defs.take(i + 1)) == remap_step(remap_fold(defs.take(i)), defs[i]),
{
    assert(defs.take(i + 1).drop_last() =~= defs.take(i));
}

/// Appends the remap section: one call per remap register, set as the
/// first signal that uses it asks, followed by a blank line where there
/// was any.
fn push_remap_section(s: &mut String, defs: &[Def])
    requires
        all_supported(defs@),
    ensures
        final(s)@ == old(s)@ + remap_fold(defs@).0 + (if remap_fold(defs@).1.len() > 0 {
            "\n"@
        } else {
            Seq::empty()
        }),
{
    let ghost start = s@;
    let mut remap_done: Vec<&'static str> = Vec::new();
    let mut i: usize = 0;
    while i < defs.len()
        invariant
            i <= defs.len(),
            all_supported(defs@),
            s@ == start + remap_fold(defs@.take(i as int)).0,
            names_view(remap_done@) == remap_fold(defs@.take(i as int)).1,
        decreases defs.len() - i,
    {
        proof {
            lemma_remap_fold_step(defs@, i as int);
            assert(def_supported(defs@[i as int]));
        }
        let ghost before = s@;
        let hw = derive_hw_config(&defs[i]);
        proof {
            reveal(def_remap);
        }
        if let Some((reg, enabled)) = hw.remap {
            if !contains_name(&remap_done, reg) {
                s.append("    GPIOPinRemap(");
                s.append(if enabled {
                    "ENABLE"
                } else {
                    "DISABLE"
                });
                s.append(", ");
                s.append(reg);
                s.append(");\n");
                let ghost done_before = remap_done@;
                remap_done.push(reg);
                proof {
                    assert(names_view(remap_done@) =~= names_view(done_before).push(reg@));
                    assert(s@ =~= before + spec_remap_line(reg@, enabled));
                }
            }
        }
        i += 1;
    }
    assert(defs@.take(defs.len() as int) =~= defs@);
    if remap_done.len() > 0 {
        s.append("\n");
    } else {
        assert(s@ =~= s@ + Seq::<char>::empty());
    }
}

/// Generates the C header that declares the board signal map.
pub fn generate_c_header(defs: &[Def]) -> (s: String)
    ensures
        s@ == spec_c_header(defs@),
{
    let mut s = String::new();
    s.append(C_HEADER_START);
    push_lines(&mut s, defs, LineKind::HeaderEnum);
    s.append(C_HEADER_END);
    s
}

/// Generates the C source that defines the board signal map and sets up
/// every pin. Each signal's function must be supported on its pin.
pub fn generate_c_source(defs: &[Def]) -> (s: String)
    requires
        all_supported(defs@),
    ensures
        s@ == spec_c_source(defs@),
{
    let mut s = String::new();
    s.append(C_SOURCE_START);
    push_lines(&mut s, defs, LineKind::SourceDefault);
    s.append(C_SOURCE_AFTER_DEFAULTS);
    push_lines(&mut s, defs, LineKind::SourceChannel);
    s.append(C_SOURCE_AFTER_CHANNELS);
    push_remap_section(&mut s, defs);
    push_lines(&mut s, defs, LineKind::SourceInit);
    s.append(C_SOURCE_END);
    s
}

/// Generates the Rust declarations of the board signal map.
pub fn generate_rust_bindings(defs: &[Def]) -> (s: String)
    ensures
        s@ == spec_rust_bindings(defs@),
{
    let mut s = String::new();
    s.append(RUST_START);
    let count = decimal_text(defs.len() as u64);
    s.append(count.as_str());
    s.append(RUST_AFTER_COUNT);
    push_lines(&mut s, defs, LineKind::RustVariant);
    s.append(RUST_AFTER_VARIANTS);
    push_lines(&mut s, defs, LineKind::RustChannel);
    s.append(RUST_END);
    s
}

} // verus!
