//! Linker scripts for a set of applications described by a manifest: memory is
//! allocated from the ROM, ITCM and RAM spaces of the platform for each binary,
//! and each binary gets a script that places it there.
//!
//! Each kind of binary has a base layout in the linker directory; the script
//! generated for a binary sets the addresses and sizes it was given and then
//! includes that layout. Writing the files is left to the caller: generation
//! hands back their paths and contents.
use vstd::prelude::*;
use crate::manifest::{aligned_block, Binary, Manifest, Memory, MemoryError, Platform};
use crate::radix::{decimal_digits, decimal_string, hex_string, hex_text};

verus! {

#[verifier::external_type_specification]
#[verifier::external_body]
pub struct ExSubstError(subst::Error);

/// The text that `subst::substitute` makes of `template` when every name in
/// `variables` is bound to the value beside it (a later pair with an equal name
/// replaces an earlier one); `None` when it reports an error.
pub uninterp spec fn substitution(
    template: Seq<char>,
    variables: Seq<(Seq<char>, Seq<char>)>,
) -> Option<Seq<char>>;

/// Calls `subst::substitute` on `template` with the pairs of `variables`
/// collected into a map. Its contract only ties the outcome to the named
/// substitution of those same arguments.
#[verifier::external_body]
fn substitute_template(template: &str, variables: &Vec<(String, String)>) -> (r: Result<
    String,
    subst::Error,
>)
    ensures
        match r {
            Ok(text) => substitution(template@, variables.deep_view()) == Some(text@),
            Err(_) => substitution(template@, variables.deep_view()) is None,
        },
{
    let map: std::collections::HashMap<&str, &str> = variables.iter().map(
        |(name, value)| (name.as_str(), value.as_str()),
    ).collect();
    subst::substitute(template, &map)
}

/// File name of the base layout for the ROM.
pub const BASE_ROM_LD_FILE: &'static str = "rom-layout.ld";

/// File name of the base layout for the kernel.
pub const BASE_KERNEL_LD_FILE: &'static str = "kernel-layout.ld";

/// File name of the base layout for applications.
pub const BASE_APP_LD_FILE: &'static str = "app-layout.ld";

/// The script of the ROM.
pub const ROM_LD_TEMPLATE: &'static str = r#"
ROM_START = $ROM_START;
ROM_LENGTH = $ROM_LENGTH;
RAM_START = $RAM_START;
RAM_LENGTH = $RAM_LENGTH;
STACK_SIZE = $STACK_SIZE;
ESTACK_SIZE = $ESTACK_SIZE;
INCLUDE $BASE_LD_CONTENTS
"#;

/// The script of the kernel.
pub const KERNEL_LD_TEMPLATE: &'static str = r#"
/* Licensed under the Apache-2.0 license. */

/* Based on the Tock board layouts, which are: */
/* Licensed under the Apache License, Version 2.0 or the MIT License. */
/* SPDX-License-Identifier: Apache-2.0 OR MIT                         */
/* Copyright Tock Contributors 2023.                                  */

MEMORY
{
    rom (rx)  : ORIGIN = $KERNEL_START, LENGTH = $KERNEL_LENGTH
    prog (rx) : ORIGIN = $APPS_START, LENGTH = $APPS_LENGTH
    ram (rwx) : ORIGIN = $DATA_RAM_START, LENGTH = $DATA_RAM_LENGTH
    flash (r) : ORIGIN = 0x0, LENGTH = 0x0
}

$PAGE_SIZE

INCLUDE $BASE_LD_CONTENTS
"#;

/// The script of an application. The TBF header is taken to be 0x84 bytes.
pub const APP_LD_TEMPLATE: &'static str = r#"
TBF_HEADER_SIZE = 0x84;
FLASH_START = $FLASH_START;
FLASH_LENGTH = $FLASH_LENGTH;
RAM_START = $RAM_START;
RAM_LENGTH = $RAM_LENGTH;
STACK_SIZE = $STACK_SIZE;
INCLUDE $BASE_LD_CONTENTS
"#;

/// The path of `file` inside the directory `dir`.
pub open spec fn in_dir(dir: Seq<char>, file: Seq<char>) -> Seq<char> {
    dir + seq!['/'] + file
}

/// The path of the script generated for the binary called `name`.
pub open spec fn script_path(dir: Seq<char>, name: Seq<char>) -> Seq<char> {
    in_dir(dir, name + ".ld"@)
}

/// The value given to `$PAGE_SIZE`: an assignment when the platform has a page
/// size, else nothing.
pub open spec fn page_size_text(page_size: Option<u64>) -> Seq<char> {
    match page_size {
        Some(pg) => "PAGE_SIZE = "@ + decimal_digits(pg as nat),
        None => Seq::empty(),
    }
}

/// The variables of the ROM script.
pub open spec fn rom_variables(base: Seq<char>, binary: Binary, instructions: Memory, data: Memory) -> Seq<
    (Seq<char>, Seq<char>),
> {
    seq![
        ("ROM_START"@, hex_text(instructions.offset as nat)),
        ("ROM_LENGTH"@, hex_text(instructions.size as nat)),
        ("RAM_START"@, hex_text(data.offset as nat)),
        ("RAM_LENGTH"@, hex_text(data.size as nat)),
        ("STACK_SIZE"@, hex_text(binary.stack_size as nat)),
        ("ESTACK_SIZE"@, hex_text(binary.exception_stack as nat)),
        ("BASE_LD_CONTENTS"@, base),
    ]
}

/// Where the applications' part of the ITCM starts and how long it is: from the
/// first application's instructions to the end of the ITCM; zero and zero
/// without applications.
pub open spec fn apps_span(platform: Platform, first_app_instructions: Option<Memory>) -> (nat, nat) {
    match first_app_instructions {
        Some(fai) => (
            fai.offset as nat,
            (platform.itcm.offset + platform.itcm.size - fai.offset) as nat,
        ),
        None => (0, 0),
    }
}

/// The variables of the kernel script.
pub open spec fn kernel_variables(
    base: Seq<char>,
    platform: Platform,
    binary: Binary,
    instructions: Memory,
    first_app_instructions: Option<Memory>,
    data: Memory,
) -> Seq<(Seq<char>, Seq<char>)> {
    let (apps_start, apps_length) = apps_span(platform, first_app_instructions);
    seq![
        ("KERNEL_START"@, hex_text(instructions.offset as nat)),
        ("KERNEL_LENGTH"@, hex_text(instructions.size as nat)),
        ("APPS_START"@, hex_text(apps_start)),
        ("APPS_LENGTH"@, hex_text(apps_length)),
        ("DATA_RAM_START"@, hex_text(data.offset as nat)),
        ("DATA_RAM_LENGTH"@, hex_text(data.size as nat)),
        ("STACK_SIZE"@, hex_text(binary.stack_size as nat)),
        ("BASE_LD_CONTENTS"@, base),
        ("PAGE_SIZE"@, page_size_text(platform.page_size)),
    ]
}

/// The variables of an application script.
pub open spec fn app_variables(base: Seq<char>, binary: Binary, instructions: Memory, data: Memory) -> Seq<
    (Seq<char>, Seq<char>),
> {
    seq![
        ("FLASH_START"@, hex_text(instructions.offset as nat)),
        ("FLASH_LENGTH"@, hex_text(instructions.size as nat)),
        ("RAM_START"@, hex_text(data.offset as nat)),
        ("RAM_LENGTH"@, hex_text(data.size as nat)),
        ("STACK_SIZE"@, hex_text(binary.stack_size as nat)),
        ("BASE_LD_CONTENTS"@, base),
    ]
}

/// A binary paired with the linker script it is built with.
#[derive(Clone, Debug)]
pub struct AppLinkerScript {
    pub name: String,
    /// The path of the script.
    pub linker_script: String,
}

/// The scripts of a whole build: the ROM's when the manifest has a ROM, the
/// kernel's, and one per application in manifest order.
#[derive(Clone, Debug)]
pub struct BuildDefinition {
    pub rom: Option<AppLinkerScript>,
    pub kernel: AppLinkerScript,
    pub apps: Vec<AppLinkerScript>,
}

/// The result of a generation: the build definition and the contents to write
/// at each script path it names.
#[derive(Clone, Debug)]
pub struct LinkerOutput {
    pub definition: BuildDefinition,
    pub rom_script: Option<String>,
    pub kernel_script: String,
    pub app_scripts: Vec<String>,
}

/// What went wrong for a binary.
#[derive(Debug)]
pub enum LdFailure {
    /// A memory space could not hold the binary.
    Memory(MemoryError),
    /// The script text could not be rendered.
    Template(subst::Error),
}

/// A failed generation: the binary it failed for, and why.
#[derive(Debug)]
pub struct LdError {
    pub binary: String,
    pub failure: LdFailure,
}

/// `failure` is the one that `step` describes: a memory error, or, for
/// `None`, a rendering error.
pub open spec fn failure_is(failure: LdFailure, step: Option<MemoryError>) -> bool {
    match step {
        Some(e) => failure == LdFailure::Memory(e),
        None => failure is Template,
    }
}

/// Turns what rendering gave for `binary` into the library's result: the text,
/// or an error that names the binary.
pub fn template_outcome(binary: &Binary, rendered: Result<String, subst::Error>) -> (r: Result<
    String,
    LdError,
>)
    ensures
        match rendered {
            Ok(text) => r == Ok::<String, LdError>(text),
            Err(e) => r matches Err(err) && err.binary@ == binary.name@ && err.failure
                == LdFailure::Template(e),
        },
{
    match rendered {
        Ok(text) => Ok(text),
        Err(e) => Err(LdError { binary: binary.name.clone(), failure: LdFailure::Template(e) }),
    }
}

/// The path of `file` inside the directory `dir`.
fn join_path(dir: &str, file: &str) -> (path: String)
    ensures
        path@ == in_dir(dir@, file@),
{
    let mut path = String::from_str(dir);
    path.append("/");
    proof {
        reveal_strlit("/");
    }
    path.append(file);
    path
}

/// Adds the pair `name`, `value` at the end of `variables`.
fn push_variable(variables: &mut Vec<(String, String)>, name: &str, value: String)
    ensures
        final(variables).deep_view() == old(variables).deep_view().push((name@, value@)),
{
    variables.push((String::from_str(name), value));
    proof {
        assert(final(variables).deep_view() =~= old(variables).deep_view().push((name@, value@)));
    }
}

/// The `$PAGE_SIZE` value for a page size.
fn page_size_string(page_size: Option<u64>) -> (s: String)
    ensures
        s@ == page_size_text(page_size),
{
    match page_size {
        Some(pg) => {
            let mut s = String::from_str("PAGE_SIZE = ");
            let digits = decimal_string(pg);
            s.append(digits.as_str());
            s
        },
        None => String::new(),
    }
}

/// The instruction and data blocks of `binary` from the free spans `code` and
/// `ram`, and the spans left after them; the first allocation error otherwise.
pub open spec fn binary_blocks(platform: Platform, binary: Binary, code: Memory, ram: Memory) -> Result<
    (Memory, Memory, Memory, Memory),
    MemoryError,
> {
    let (instructions, code_rest) = aligned_block(
        code,
        binary.exec_mem.size,
        platform.effective_alignment(binary.exec_mem.alignment),
    );
    match instructions {
        Err(e) => Err(e),
        Ok(instr) => {
            let (data, ram_rest) = aligned_block(
                ram,
                binary.ram,
                platform.effective_alignment(binary.ram_alignment),
            );
            match data {
                Err(e) => Err(e),
                Ok(d) => Ok((instr, d, code_rest, ram_rest)),
            }
        },
    }
}

/// An aligned allocation hands out a block of the size asked for, starting at
/// a multiple of the alignment, inside the span it came from and right before
/// what remains; the end of the free span stays where it was. Blocks taken one
/// after another from a tracker therefore never overlap.
pub proof fn lemma_aligned_block_bounds(tracker: Memory, size: u64, alignment: u64)
    requires
        tracker.fits(),
        alignment != 0,
    ensures
        ({
            let (r, rest) = aligned_block(tracker, size, alignment);
            &&& rest.fits()
            &&& rest.offset + rest.size == tracker.offset + tracker.size
            &&& (r matches Ok(block) ==> {
                &&& block.size == size
                &&& block.offset % alignment == 0
                &&& tracker.offset <= block.offset
                &&& block.offset + block.size == rest.offset
            })
        }),
{
    let pad = crate::manifest::padding(tracker.offset, alignment);
    let o = tracker.offset as int;
    let a = alignment as int;
    if o % a != 0 {
        assert((o + (a - o % a)) % a == 0) by {
            vstd::arithmetic::div_mod::lemma_fundamental_div_mod(o, a);
            vstd::arithmetic::div_mod::lemma_mod_pos_bound(o, a);
            assert(o + (a - o % a) == (o / a + 1) * a + 0) by (nonlinear_arith)
                requires
                    o == a * (o / a) + o % a,
            ;
            vstd::arithmetic::div_mod::lemma_fundamental_div_mod_converse(
                o + (a - o % a),
                a,
                o / a + 1,
                0,
            );
        }
    }
    assert(pad == 0 || (o + pad) % a == 0);
}

/// A binary's blocks are laid out as it asks: its instructions block has the
/// size it names and starts at a multiple of its instruction alignment, and
/// its data block has its RAM size and starts at a multiple of its RAM
/// alignment; the platform alignment stands in only where the binary names
/// none.
pub proof fn lemma_binary_blocks_follow_binary(
    platform: Platform,
    binary: Binary,
    code: Memory,
    ram: Memory,
)
    requires
        code.fits(),
        ram.fits(),
        platform.aligns(binary),
        binary_blocks(platform, binary, code, ram) is Ok,
    ensures
        ({
            let (instructions, data, _, _) = binary_blocks(platform, binary, code, ram)->Ok_0;
            let code_alignment = match binary.exec_mem.alignment {
                Some(a) => a,
                None => platform.alignment,
            };
            let ram_alignment = match binary.ram_alignment {
                Some(a) => a,
                None => platform.alignment,
            };
            &&& instructions.size == binary.exec_mem.size
            &&& instructions.offset % code_alignment == 0
            &&& code.offset <= instructions.offset
            &&& instructions.offset + instructions.size <= code.offset + code.size
            &&& data.size == binary.ram
            &&& data.offset % ram_alignment == 0
            &&& ram.offset <= data.offset
            &&& data.offset + data.size <= ram.offset + ram.size
        }),
{
    lemma_aligned_block_bounds(
        code,
        binary.exec_mem.size,
        platform.effective_alignment(binary.exec_mem.alignment),
    );
    lemma_aligned_block_bounds(ram, binary.ram, platform.effective_alignment(binary.ram_alignment));
}

/// The ROM's script text when its blocks fit: its instructions from the ROM
/// space and its data from the whole RAM; else what failed.
pub open spec fn rom_outcome(dir: Seq<char>, platform: Platform, binary: Binary) -> Result<
    Seq<char>,
    Option<MemoryError>,
> {
    match binary_blocks(platform, binary, platform.rom, platform.ram) {
        Err(e) => Err(Some(e)),
        Ok((instructions, data, _, _)) => match substitution(
            ROM_LD_TEMPLATE@,
            rom_variables(in_dir(dir, BASE_ROM_LD_FILE@), binary, instructions, data),
        ) {
            Some(text) => Ok(text),
            None => Err(None),
        },
    }
}

/// The ROM part of a build: no script without a ROM, else the ROM's script
/// text or the ROM and what failed for it.
pub open spec fn rom_part(dir: Seq<char>, manifest: Manifest) -> Result<
    Option<Seq<char>>,
    (Binary, Option<MemoryError>),
> {
    match manifest.rom {
        None => Ok(None),
        Some(binary) => match rom_outcome(dir, manifest.platform, binary) {
            Ok(text) => Ok(Some(text)),
            Err(f) => Err((binary, f)),
        },
    }
}

/// One application laid out from the free spans `code` and `ram`: its script
/// text, its instructions block and the spans left; or what failed.
pub open spec fn app_step(
    dir: Seq<char>,
    platform: Platform,
    binary: Binary,
    code: Memory,
    ram: Memory,
) -> Result<(Seq<char>, Memory, Memory, Memory), Option<MemoryError>> {
    match binary_blocks(platform, binary, code, ram) {
        Err(e) => Err(Some(e)),
        Ok((instructions, data, code_rest, ram_rest)) => match substitution(
            APP_LD_TEMPLATE@,
            app_variables(in_dir(dir, BASE_APP_LD_FILE@), binary, instructions, data),
        ) {
            None => Err(None),
            Some(text) => Ok((text, instructions, code_rest, ram_rest)),
        },
    }
}

/// The applications `apps` laid out one after another from the free spans
/// `code` and `ram`: their script texts in order, the instructions block of the
/// first, and the spans left; or the index of the first application that
/// failed and what failed.
pub open spec fn apps_outcome(
    dir: Seq<char>,
    platform: Platform,
    apps: Seq<Binary>,
    code: Memory,
    ram: Memory,
) -> Result<(Seq<Seq<char>>, Option<Memory>, Memory, Memory), (int, Option<MemoryError>)>
    decreases apps.len(),
{
    if apps.len() == 0 {
        Ok((Seq::empty(), None, code, ram))
    } else {
        match apps_outcome(dir, platform, apps.drop_last(), code, ram) {
            Err(failed) => Err(failed),
            Ok((texts, first, code1, ram1)) => match app_step(
                dir,
                platform,
                apps.last(),
                code1,
                ram1,
            ) {
                Err(f) => Err((apps.len() - 1, f)),
                Ok((text, instructions, code2, ram2)) => Ok(
                    (
                        texts.push(text),
                        match first {
                            Some(f) => Some(f),
                            None => Some(instructions),
                        },
                        code2,
                        ram2,
                    ),
                ),
            },
        }
    }
}

/// A whole build in the order the scripts are made: the ROM (with the whole
/// RAM to itself, since it runs before the rest), then the kernel's blocks
/// first in the ITCM and in the RAM, then each application after it, and last
/// the kernel's script, which needs to know where the applications start.
/// The texts of the ROM, kernel and application scripts; or the binary for
/// which generation failed first and what failed.
pub open spec fn build_outcome(dir: Seq<char>, manifest: Manifest) -> Result<
    (Option<Seq<char>>, Seq<char>, Seq<Seq<char>>),
    (Binary, Option<MemoryError>),
> {
    let platform = manifest.platform;
    match rom_part(dir, manifest) {
        Err(failed) => Err(failed),
        Ok(rom_text) => match binary_blocks(platform, manifest.kernel, platform.itcm, platform.ram) {
            Err(e) => Err((manifest.kernel, Some(e))),
            Ok((instructions, data, code, ram)) => match apps_outcome(
                dir,
                platform,
                manifest.apps@,
                code,
                ram,
            ) {
                Err((k, f)) => Err((manifest.apps@[k], f)),
                Ok((app_texts, first, _, _)) => match substitution(
                    KERNEL_LD_TEMPLATE@,
                    kernel_variables(
                        in_dir(dir, BASE_KERNEL_LD_FILE@),
                        platform,
                        manifest.kernel,
                        instructions,
                        first,
                        data,
                    ),
                ) {
                    None => Err((manifest.kernel, None)),
                    Some(kernel_text) => Ok((rom_text, kernel_text, app_texts)),
                },
            },
        },
    }
}

/// `script` pairs `binary` with its script in `dir`.
pub open spec fn names_script(script: AppLinkerScript, dir: Seq<char>, binary: Binary) -> bool {
    &&& script.name@ == binary.name@
    &&& script.linker_script@ == script_path(dir, binary.name@)
}

/// `out` holds the given script texts for the binaries of `manifest`, each at
/// its path in `dir`.
pub open spec fn output_is(
    out: LinkerOutput,
    dir: Seq<char>,
    manifest: Manifest,
    rom_text: Option<Seq<char>>,
    kernel_text: Seq<char>,
    app_texts: Seq<Seq<char>>,
) -> bool {
    &&& match manifest.rom {
        None => out.definition.rom is None && out.rom_script is None && rom_text is None,
        Some(binary) => {
            &&& out.definition.rom matches Some(script) && names_script(script, dir, binary)
            &&& out.rom_script matches Some(text) && rom_text == Some(text@)
        },
    }
    &&& names_script(out.definition.kernel, dir, manifest.kernel)
    &&& out.kernel_script@ == kernel_text
    &&& out.definition.apps@.len() == manifest.apps@.len()
    &&& out.app_scripts@.len() == manifest.apps@.len()
    &&& app_texts.len() == manifest.apps@.len()
    &&& forall|i: int|
        0 <= i < manifest.apps@.len() ==> {
            &&& names_script(#[trigger] out.definition.apps@[i], dir, manifest.apps@[i])
            &&& out.app_scripts@[i]@ == app_texts[i]
        }
}

/// `r` is what generating the scripts of `manifest` in `dir` gives: the
/// scripts of the build, or an error for the binary that failed first.
pub open spec fn generation_result(
    dir: Seq<char>,
    manifest: Manifest,
    r: Result<LinkerOutput, LdError>,
) -> bool {
    match r {
        Ok(out) => build_outcome(dir, manifest) matches Ok((rom_text, kernel_text, app_texts))
            && output_is(out, dir, manifest, rom_text, kernel_text, app_texts),
        Err(e) => build_outcome(dir, manifest) matches Err((binary, f)) && e.binary@
            == binary.name@ && failure_is(e.failure, f),
    }
}

/// Once the applications up to `j` fail, every longer run fails the same way.
proof fn lemma_apps_outcome_keeps_failure(
    dir: Seq<char>,
    platform: Platform,
    apps: Seq<Binary>,
    code: Memory,
    ram: Memory,
    j: int,
    k: int,
)
    requires
        0 <= j <= k <= apps.len(),
        apps_outcome(dir, platform, apps.take(j), code, ram) is Err,
    ensures
        apps_outcome(dir, platform, apps.take(k), code, ram) == apps_outcome(
            dir,
            platform,
            apps.take(j),
            code,
            ram,
        ),
    decreases k - j,
{
    if k > j {
        lemma_apps_outcome_keeps_failure(dir, platform, apps, code, ram, j, k - 1);
        assert(apps.take(k).drop_last() =~= apps.take(k - 1));
    }
}

/// The context of one generation: the manifest and the directory that holds
/// the base layouts and receives the scripts.
struct LdGeneration<'a> {
    manifest: &'a Manifest,
    linker_dir: String,
}

impl<'a> LdGeneration<'a> {
    fn new(manifest: &'a Manifest, linker_dir: &str) -> (g: Self)
        ensures
            g.manifest == manifest,
            g.linker_dir@ == linker_dir@,
    {
        LdGeneration { manifest, linker_dir: String::from_str(linker_dir) }
    }

    /// Allocates `size` bytes from `tracker` at the binary's alignment, or the
    /// platform default when it names none.
    fn get_mem_block(&self, size: u64, binary_alignment: Option<u64>, tracker: &mut Memory) -> (r:
        Result<Memory, MemoryError>)
        requires
            old(tracker).fits(),
            self.manifest.platform.effective_alignment(binary_alignment) != 0,
        ensures
            (r, *final(tracker)) == aligned_block(
                *old(tracker),
                size,
                self.manifest.platform.effective_alignment(binary_alignment),
            ),
            final(tracker).fits(),
    {
        let alignment = match binary_alignment {
            Some(a) => a,
            None => self.manifest.platform.default_alignment(),
        };
        if tracker.offset % alignment != 0 {
            if let Err(e) = tracker.consume(alignment - (tracker.offset % alignment)) {
                return Err(e);
            }
        }
        tracker.consume(size)
    }

    /// Allocates the instructions of `binary` from `code` and its data from
    /// `ram`.
    fn allocate(&self, binary: &Binary, code: &mut Memory, ram: &mut Memory) -> (r: Result<
        (Memory, Memory),
        MemoryError,
    >)
        requires
            old(code).fits(),
            old(ram).fits(),
            self.manifest.platform.aligns(*binary),
        ensures
            final(code).fits(),
            final(ram).fits(),
            match r {
                Ok((instructions, data)) => binary_blocks(
                    self.manifest.platform,
                    *binary,
                    *old(code),
                    *old(ram),
                ) == Ok::<_, MemoryError>((instructions, data, *final(code), *final(ram))),
                Err(e) => binary_blocks(self.manifest.platform, *binary, *old(code), *old(ram))
                    == Err::<(Memory, Memory, Memory, Memory), _>(e),
            },
    {
        let instructions = match self.get_mem_block(
            binary.exec_mem.size,
            binary.exec_mem.alignment,
            code,
        ) {
            Ok(block) => block,
            Err(e) => return Err(e),
        };
        let data = match self.get_mem_block(binary.ram, binary.ram_alignment, ram) {
            Ok(block) => block,
            Err(e) => return Err(e),
        };
        Ok((instructions, data))
    }

    /// The path of the script generated for `binary`.
    fn ld_file_path(&self, binary: &Binary) -> (path: String)
        ensures
            path@ == script_path(self.linker_dir@, binary.name@),
    {
        let mut file = binary.name.clone();
        file.append(".ld");
        join_path(self.linker_dir.as_str(), file.as_str())
    }

    /// The pairing of `binary` with its script.
    fn script_for(&self, binary: &Binary) -> (s: AppLinkerScript)
        ensures
            s.name@ == binary.name@,
            s.linker_script@ == script_path(self.linker_dir@, binary.name@),
    {
        AppLinkerScript { name: binary.name.clone(), linker_script: self.ld_file_path(binary) }
    }

    /// The ROM's script: where its instructions and data were placed, its
    /// stack sizes, and the ROM base layout to include.
    fn rom_linker_content(&self, binary: &Binary, instructions: Memory, data: Memory) -> (r:
        Result<String, LdError>)
        ensures
            match r {
                Ok(text) => substitution(
                    ROM_LD_TEMPLATE@,
                    rom_variables(
                        in_dir(self.linker_dir@, BASE_ROM_LD_FILE@),
                        *binary,
                        instructions,
                        data,
                    ),
                ) == Some(text@),
                Err(e) => substitution(
                    ROM_LD_TEMPLATE@,
                    rom_variables(
                        in_dir(self.linker_dir@, BASE_ROM_LD_FILE@),
                        *binary,
                        instructions,
                        data,
                    ),
                ) is None && e.binary@ == binary.name@ && e.failure is Template,
            },
    {
        let base_ld_file = join_path(self.linker_dir.as_str(), BASE_ROM_LD_FILE);
        let mut sub_map: Vec<(String, String)> = Vec::new();
        push_variable(&mut sub_map, "ROM_START", hex_string(instructions.offset));
        push_variable(&mut sub_map, "ROM_LENGTH", hex_string(instructions.size));
        push_variable(&mut sub_map, "RAM_START", hex_string(data.offset));
        push_variable(&mut sub_map, "RAM_LENGTH", hex_string(data.size));
        push_variable(&mut sub_map, "STACK_SIZE", hex_string(binary.stack()));
        push_variable(&mut sub_map, "ESTACK_SIZE", hex_string(binary.exception_stack));
        push_variable(&mut sub_map, "BASE_LD_CONTENTS", base_ld_file);
        proof {
            assert(sub_map.deep_view() =~= rom_variables(
                in_dir(self.linker_dir@, BASE_ROM_LD_FILE@),
                *binary,
                instructions,
                data,
            ));
        }
        template_outcome(binary, substitute_template(ROM_LD_TEMPLATE, &sub_map))
    }

    /// The kernel's script: the memory map of its instructions, of the
    /// applications' part of the ITCM and of its data, the page size when the
    /// platform has one, and the kernel base layout to include.
    fn kernel_linker_content(
        &self,
        binary: &Binary,
        instructions: Memory,
        first_app_instructions: Option<Memory>,
        data: Memory,
    ) -> (r: Result<String, LdError>)
        requires
            self.manifest.platform.itcm.fits(),
            first_app_instructions matches Some(fai) ==> fai.offset
                <= self.manifest.platform.itcm.offset + self.manifest.platform.itcm.size,
        ensures
            match r {
                Ok(text) => substitution(
                    KERNEL_LD_TEMPLATE@,
                    kernel_variables(
                        in_dir(self.linker_dir@, BASE_KERNEL_LD_FILE@),
                        self.manifest.platform,
                        *binary,
                        instructions,
                        first_app_instructions,
                        data,
                    ),
                ) == Some(text@),
                Err(e) => substitution(
                    KERNEL_LD_TEMPLATE@,
                    kernel_variables(
                        in_dir(self.linker_dir@, BASE_KERNEL_LD_FILE@),
                        self.manifest.platform,
                        *binary,
                        instructions,
                        first_app_instructions,
                        data,
                    ),
                ) is None && e.binary@ == binary.name@ && e.failure is Template,
            },
    {
        let base_ld_file = join_path(self.linker_dir.as_str(), BASE_KERNEL_LD_FILE);
        let mut sub_map: Vec<(String, String)> = Vec::new();
        push_variable(&mut sub_map, "KERNEL_START", hex_string(instructions.offset));
        push_variable(&mut sub_map, "KERNEL_LENGTH", hex_string(instructions.size));
        // The applications' region runs from the first application's
        // instructions to the end of the ITCM; without applications it is unused.
        let (apps_start, apps_length): (u64, u64) = match first_app_instructions {
            Some(fai) => (
                fai.offset,
                self.manifest.platform.itcm.offset + self.manifest.platform.itcm.size - fai.offset,
            ),
            None => (0, 0),
        };
        push_variable(&mut sub_map, "APPS_START", hex_string(apps_start));
        push_variable(&mut sub_map, "APPS_LENGTH", hex_string(apps_length));
        push_variable(&mut sub_map, "DATA_RAM_START", hex_string(data.offset));
        push_variable(&mut sub_map, "DATA_RAM_LENGTH", hex_string(data.size));
        push_variable(&mut sub_map, "STACK_SIZE", hex_string(binary.stack()));
        push_variable(&mut sub_map, "BASE_LD_CONTENTS", base_ld_file);
        push_variable(
            &mut sub_map,
            "PAGE_SIZE",
            page_size_string(self.manifest.platform.page_size),
        );
        proof {
            assert(sub_map.deep_view() =~= kernel_variables(
                in_dir(self.linker_dir@, BASE_KERNEL_LD_FILE@),
                self.manifest.platform,
                *binary,
                instructions,
                first_app_instructions,
                data,
            ));
        }
        template_outcome(binary, substitute_template(KERNEL_LD_TEMPLATE, &sub_map))
    }

    /// An application's script: where its instructions and data were placed,
    /// its stack size, and the application base layout to include.
    fn app_linker_content(&self, binary: &Binary, instructions: Memory, data: Memory) -> (r:
        Result<String, LdError>)
        ensures
            match r {
                Ok(text) => substitution(
                    APP_LD_TEMPLATE@,
                    app_variables(
                        in_dir(self.linker_dir@, BASE_APP_LD_FILE@),
                        *binary,
                        instructions,
                        data,
                    ),
                ) == Some(text@),
                Err(e) => substitution(
                    APP_LD_TEMPLATE@,
                    app_variables(
                        in_dir(self.linker_dir@, BASE_APP_LD_FILE@),
                        *binary,
                        instructions,
                        data,
                    ),
                ) is None && e.binary@ == binary.name@ && e.failure is Template,
            },
    {
        let base_ld_file = join_path(self.linker_dir.as_str(), BASE_APP_LD_FILE);
        let mut sub_map: Vec<(String, String)> = Vec::new();
        push_variable(&mut sub_map, "FLASH_START", hex_string(instructions.offset));
        push_variable(&mut sub_map, "FLASH_LENGTH", hex_string(instructions.size));
        push_variable(&mut sub_map, "RAM_START", hex_string(data.offset));
        push_variable(&mut sub_map, "RAM_LENGTH", hex_string(data.size));
        push_variable(&mut sub_map, "STACK_SIZE", hex_string(binary.stack()));
        push_variable(&mut sub_map, "BASE_LD_CONTENTS", base_ld_file);
        proof {
            assert(sub_map.deep_view() =~= app_variables(
                in_dir(self.linker_dir@, BASE_APP_LD_FILE@),
                *binary,
                instructions,
                data,
            ));
        }
        template_outcome(binary, substitute_template(APP_LD_TEMPLATE, &sub_map))
    }

    /// Lays out one application from `code` and `ram` and renders its script:
    /// the script text and the application's instructions block.
    fn app_script(&self, binary: &Binary, code: &mut Memory, ram: &mut Memory) -> (r: Result<
        (String, Memory),
        LdError,
    >)
        requires
            old(code).fits(),
            old(ram).fits(),
            self.manifest.platform.aligns(*binary),
        ensures
            final(code).fits(),
            final(ram).fits(),
            match r {
                Ok((text, instructions)) => {
                    &&& final(code).offset + final(code).size == old(code).offset + old(code).size
                    &&& app_step(self.linker_dir@, self.manifest.platform, *binary, *old(code), *old(ram))
                        == Ok::<_, Option<MemoryError>>((text@, instructions, *final(code), *final(ram)))
                    &&& instructions.offset <= old(code).offset + old(code).size
                },
                Err(e) => app_step(
                    self.linker_dir@,
                    self.manifest.platform,
                    *binary,
                    *old(code),
                    *old(ram),
                ) matches Err(f) && e.binary@ == binary.name@ && failure_is(e.failure, f),
            },
    {
        let ghost code0 = *code;
        let (instructions, data) = match self.allocate(binary, code, ram) {
            Ok(blocks) => blocks,
            Err(e) => {
                return Err(LdError { binary: binary.name.clone(), failure: LdFailure::Memory(e) });
            },
        };
        proof {
            lemma_aligned_block_bounds(
                code0,
                binary.exec_mem.size,
                self.manifest.platform.effective_alignment(binary.exec_mem.alignment),
            );
        }
        match self.app_linker_content(binary, instructions, data) {
            Ok(text) => Ok((text, instructions)),
            Err(e) => Err(e),
        }
    }

    /// Allocates memory for every binary of the manifest and renders each
    /// one's script.
    fn run(&self) -> (r: Result<LinkerOutput, LdError>)
        requires
            self.manifest.well_formed(),
        ensures
            generation_result(self.linker_dir@, *self.manifest, r),
    {
        let ghost dir = self.linker_dir@;
        let ghost m = *self.manifest;
        let platform = &self.manifest.platform;
        // The ROM runs before anything else, so it has the whole RAM.
        let (rom_def, rom_script): (Option<AppLinkerScript>, Option<String>) = match &self.manifest.rom {
            None => (None, None),
            Some(binary) => {
                let mut rom_tracker = platform.rom;
                let mut ram_tracker = platform.ram;
                let (instructions, data) = match self.allocate(
                    binary,
                    &mut rom_tracker,
                    &mut ram_tracker,
                ) {
                    Ok(blocks) => blocks,
                    Err(e) => {
                        return Err(
                            LdError { binary: binary.name.clone(), failure: LdFailure::Memory(e) },
                        );
                    },
                };
                let content = match self.rom_linker_content(binary, instructions, data) {
                    Ok(text) => text,
                    Err(e) => return Err(e),
                };
                (Some(self.script_for(binary)), Some(content))
            },
        };
        let ghost rom_text: Option<Seq<char>> = match &rom_script {
            Some(text) => Some(text@),
            None => None,
        };
        assert(rom_part(dir, m) == Ok::<_, (Binary, Option<MemoryError>)>(rom_text));

        // The kernel comes first in both the ITCM and the RAM.
        let mut itcm_tracker = platform.itcm;
        let mut ram_tracker = platform.ram;
        let kernel = &self.manifest.kernel;
        let (kernel_instructions, kernel_data) = match self.allocate(
            kernel,
            &mut itcm_tracker,
            &mut ram_tracker,
        ) {
            Ok(blocks) => blocks,
            Err(e) => {
                return Err(LdError { binary: kernel.name.clone(), failure: LdFailure::Memory(e) });
            },
        };
        proof {
            lemma_aligned_block_bounds(
                platform.itcm,
                kernel.exec_mem.size,
                platform.effective_alignment(kernel.exec_mem.alignment),
            );
        }
        let ghost code0 = itcm_tracker;
        let ghost ram0 = ram_tracker;

        let mut first_app_instructions: Option<Memory> = None;
        let mut app_defs: Vec<AppLinkerScript> = Vec::new();
        let mut app_scripts: Vec<String> = Vec::new();
        let n = self.manifest.apps.len();
        let mut idx: usize = 0;
        let ghost mut texts: Seq<Seq<char>> = Seq::empty();
        while idx < n
            invariant
                self.manifest.well_formed(),
                m == *self.manifest,
                dir == self.linker_dir@,
                *platform == m.platform,
                n == m.apps@.len(),
                idx <= n,
                itcm_tracker.fits(),
                ram_tracker.fits(),
                itcm_tracker.offset + itcm_tracker.size == platform.itcm.offset + platform.itcm.size,
                first_app_instructions matches Some(f) ==> f.offset <= platform.itcm.offset
                    + platform.itcm.size,
                apps_outcome(dir, m.platform, m.apps@.take(idx as int), code0, ram0) == Ok::<
                    _,
                    (int, Option<MemoryError>),
                >((texts, first_app_instructions, itcm_tracker, ram_tracker)),
                texts.len() == idx,
                app_scripts@.len() == idx,
                app_defs@.len() == idx,
                forall|j: int| 0 <= j < idx ==> (#[trigger] app_scripts@[j])@ == texts[j],
                forall|j: int| 0 <= j < idx ==> names_script(#[trigger] app_defs@[j], dir, m.apps@[j]),
                rom_part(dir, m) == Ok::<_, (Binary, Option<MemoryError>)>(rom_text),
                binary_blocks(m.platform, m.kernel, m.platform.itcm, m.platform.ram) == Ok::<
                    _,
                    MemoryError,
                >((kernel_instructions, kernel_data, code0, ram0)),
            decreases n - idx,
        {
            let binary = &self.manifest.apps[idx];
            let ghost code_before = itcm_tracker;
            let ghost ram_before = ram_tracker;
            proof {
                assert(m.apps@.take(idx + 1).drop_last() =~= m.apps@.take(idx as int));
                assert(m.apps@.take(idx + 1).last() == m.apps@[idx as int]);
                assert(self.manifest.platform.aligns(m.apps@[idx as int]));
            }
            let (content, instructions) = match self.app_script(
                binary,
                &mut itcm_tracker,
                &mut ram_tracker,
            ) {
                Ok(step) => step,
                Err(e) => {
                    proof {
                        lemma_apps_outcome_keeps_failure(
                            dir,
                            m.platform,
                            m.apps@,
                            code0,
                            ram0,
                            idx + 1,
                            n as int,
                        );
                        assert(m.apps@.take(n as int) =~= m.apps@);
                    }
                    return Err(e);
                },
            };
            if first_app_instructions.is_none() {
                first_app_instructions = Some(instructions);
            }
            app_defs.push(self.script_for(binary));
            app_scripts.push(content);
            proof {
                texts = texts.push(app_scripts@[idx as int]@);
            }
            idx += 1;
        }
        proof {
            assert(m.apps@.take(n as int) =~= m.apps@);
        }

        // The kernel's script comes last: it needs the applications' region.
        let kernel_content = match self.kernel_linker_content(
            kernel,
            kernel_instructions,
            first_app_instructions,
            kernel_data,
        ) {
            Ok(text) => text,
            Err(e) => return Err(e),
        };
        let out = LinkerOutput {
            definition: BuildDefinition {
                rom: rom_def,
                kernel: self.script_for(kernel),
                apps: app_defs,
            },
            rom_script,
            kernel_script: kernel_content,
            app_scripts,
        };
        proof {
            let (texts, _, _, _) = apps_outcome(dir, m.platform, m.apps@, code0, ram0)->Ok_0;
            assert(build_outcome(dir, m) == Ok::<_, (Binary, Option<MemoryError>)>(
                (rom_text, kernel_content@, texts),
            ));
        }
        Ok(out)
    }
}

/// Generates the linker scripts of every binary in `manifest`, placed in the
/// directory `linker_dir` beside the base layouts that they include: memory
/// is allocated for each binary from the platform's spaces, and each binary
/// gets a script that places it there.
///
/// Fails for the first binary whose memory does not fit or whose script cannot
/// be rendered; the error names that binary.
pub fn generate(manifest: &Manifest, linker_dir: &str) -> (r: Result<LinkerOutput, LdError>)
    requires
        manifest.well_formed(),
    ensures
        generation_result(linker_dir@, *manifest, r),
{
    LdGeneration::new(manifest, linker_dir).run()
}

} // verus!
