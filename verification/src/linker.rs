//! Symbol resolution linker: the table of native shims, and the pass that
//! resolves an image's imports against it and patches the resolved addresses
//! into the image's import address table.

use crate::image::{ImageDescriptor, ImportModel, ImportedSymbol, SymbolModel};
use crate::text::{lowercase, lowercase_of};
use crate::vmm::{place, place_bytes, MemoryRegion, RegionModel};
use vstd::bytes::{spec_u32_to_le_bytes, spec_u64_to_le_bytes, u32_to_le_bytes, u64_to_le_bytes};
use vstd::hash_map::StringHashMap;
use vstd::prelude::*;
use vstd::string::StringExecFns;

verus! {

/// The key under which a symbol is filed: module and function in lowercase,
/// with an exclamation mark between them.
pub open spec fn symbol_key(module: Seq<char>, function: Seq<char>) -> Seq<char> {
    lowercase_of(module) + "!"@ + lowercase_of(function)
}

/// The table after a registration: the symbol's key holds the address,
/// whatever it held before.
pub open spec fn register_spec(
    table: Map<Seq<char>, usize>,
    module: Seq<char>,
    function: Seq<char>,
    address: usize,
) -> Map<Seq<char>, usize> {
    table.insert(symbol_key(module, function), address)
}

/// The address that a symbol resolves to, if it is registered.
pub open spec fn resolve_spec(table: Map<Seq<char>, usize>, module: Seq<char>, function: Seq<char>) -> Option<
    usize,
> {
    if table.contains_key(symbol_key(module, function)) {
        Some(table[symbol_key(module, function)])
    } else {
        None
    }
}

/// Entry addresses of the native shims that every table starts with.
#[derive(Clone, Copy, Debug, PartialEq, Eq, Structural)]
pub struct CoreShims {
    pub get_system_info: usize,
    pub get_tick_count: usize,
    pub get_desktop_window: usize,
}

/// The table that holds the core shims and nothing else.
pub open spec fn core_table(shims: CoreShims) -> Map<Seq<char>, usize> {
    register_spec(
        register_spec(
            register_spec(
                Map::empty(),
                "kernel32.dll"@,
                "GetSystemInfo"@,
                shims.get_system_info,
            ),
            "kernel32.dll"@,
            "GetTickCount"@,
            shims.get_tick_count,
        ),
        "user32.dll"@,
        "GetDesktopWindow"@,
        shims.get_desktop_window,
    )
}

/// One import of an image, with the native address it was linked to, or zero
/// where it was not linked.
#[derive(Clone, Debug)]
pub struct ImportEntry {
    pub dll: String,
    pub function: String,
    pub address: u64,
}

/// Mathematical model of an `ImportEntry`.
pub struct EntryModel {
    pub dll: Seq<char>,
    pub function: Seq<char>,
    pub address: u64,
}

impl View for ImportEntry {
    type V = EntryModel;

    open spec fn view(&self) -> EntryModel {
        EntryModel { dll: self.dll@, function: self.function@, address: self.address }
    }
}

/// The outcome of one link pass: the imports that were resolved and patched,
/// and those that were not, each in import order.
#[derive(Clone, Debug)]
pub struct LinkReport {
    pub resolved: Vec<ImportEntry>,
    pub unresolved: Vec<ImportEntry>,
}

/// The state of a link pass: the image contents and the two lists so far.
pub struct LinkState {
    pub contents: Seq<u8>,
    pub resolved: Seq<EntryModel>,
    pub unresolved: Seq<EntryModel>,
}

impl LinkReport {
    /// The resolved imports, as models.
    pub open spec fn resolved_model(&self) -> Seq<EntryModel> {
        self.resolved@.map_values(|e: ImportEntry| e@)
    }

    /// The unresolved imports, as models.
    pub open spec fn unresolved_model(&self) -> Seq<EntryModel> {
        self.unresolved@.map_values(|e: ImportEntry| e@)
    }

    /// Number of imports that were resolved and patched.
    pub fn resolved_count(&self) -> (n: usize)
        ensures
            n == self.resolved_model().len(),
    {
        self.resolved.len()
    }

    /// Number of imports that were left unresolved.
    pub fn unresolved_count(&self) -> (n: usize)
        ensures
            n == self.unresolved_model().len(),
    {
        self.unresolved.len()
    }
}

/// Width in bytes of an import-address-table slot: eight where the optional
/// header is of the 64-bit form, four where it is not.
pub open spec fn slot_width(wide_slots: bool) -> nat {
    if wide_slots {
        8
    } else {
        4
    }
}

/// The bytes that a slot receives for an address: the address in little
/// endian, over the width of the slot.
pub open spec fn slot_bytes(address: usize, wide_slots: bool) -> Seq<u8> {
    if wide_slots {
        spec_u64_to_le_bytes(address as u64)
    } else {
        spec_u32_to_le_bytes(address as u32)
    }
}

/// An import can be patched: its symbol is registered, its slot lies inside
/// the image contents, and the address fits the slot.
pub open spec fn patchable(
    table: Map<Seq<char>, usize>,
    module: Seq<char>,
    symbol: SymbolModel,
    wide_slots: bool,
    contents_len: nat,
) -> bool {
    &&& table.contains_key(symbol_key(module, symbol.name_or_ordinal))
    &&& symbol.iat_slot_rva + slot_width(wide_slots) <= contents_len
    &&& wide_slots || table[symbol_key(module, symbol.name_or_ordinal)] <= u32::MAX
}

/// The state after one import was handled. A patchable import has its address
/// written into its slot and is listed as resolved; any other leaves the
/// contents alone and is listed as unresolved, with address zero.
pub open spec fn link_one(
    table: Map<Seq<char>, usize>,
    module: Seq<char>,
    symbol: SymbolModel,
    wide_slots: bool,
    state: LinkState,
) -> LinkState {
    if patchable(table, module, symbol, wide_slots, state.contents.len()) {
        let address = table[symbol_key(module, symbol.name_or_ordinal)];
        LinkState {
            contents: place(
                state.contents,
                symbol.iat_slot_rva as int,
                slot_bytes(address, wide_slots),
            ),
            resolved: state.resolved.push(
                EntryModel {
                    dll: module,
                    function: symbol.name_or_ordinal,
                    address: address as u64,
                },
            ),
            unresolved: state.unresolved,
        }
    } else {
        LinkState {
            contents: state.contents,
            resolved: state.resolved,
            unresolved: state.unresolved.push(
                EntryModel { dll: module, function: symbol.name_or_ordinal, address: 0 },
            ),
        }
    }
}

/// The state after the first `n` symbols of one module were handled, in
/// order.
pub open spec fn link_symbols(
    table: Map<Seq<char>, usize>,
    module: Seq<char>,
    symbols: Seq<SymbolModel>,
    n: nat,
    wide_slots: bool,
    state: LinkState,
) -> LinkState
    decreases n,
{
    if n == 0 {
        state
    } else {
        link_one(
            table,
            module,
            symbols[n - 1],
            wide_slots,
            link_symbols(table, module, symbols, (n - 1) as nat, wide_slots, state),
        )
    }
}

/// The state after the first `n` modules were handled, in order.
pub open spec fn link_modules(
    table: Map<Seq<char>, usize>,
    imports: Seq<ImportModel>,
    n: nat,
    wide_slots: bool,
    state: LinkState,
) -> LinkState
    decreases n,
{
    if n == 0 {
        state
    } else {
        link_symbols(
            table,
            imports[n - 1].module_name,
            imports[n - 1].symbols,
            imports[n - 1].symbols.len(),
            wide_slots,
            link_modules(table, imports, (n - 1) as nat, wide_slots, state),
        )
    }
}

/// The state that the three buffers of a link pass stand for.
pub open spec fn state_of(
    contents: Seq<u8>,
    resolved: Seq<ImportEntry>,
    unresolved: Seq<ImportEntry>,
) -> LinkState {
    LinkState {
        contents,
        resolved: resolved.map_values(|e: ImportEntry| e@),
        unresolved: unresolved.map_values(|e: ImportEntry| e@),
    }
}

/// The state in which a link pass over the given contents starts.
pub open spec fn link_start(contents: Seq<u8>) -> LinkState {
    LinkState { contents, resolved: Seq::empty(), unresolved: Seq::empty() }
}

/// The state in which a link pass over the given contents ends.
pub open spec fn link_spec(
    table: Map<Seq<char>, usize>,
    imports: Seq<ImportModel>,
    wide_slots: bool,
    contents: Seq<u8>,
) -> LinkState {
    link_modules(table, imports, imports.len(), wide_slots, link_start(contents))
}

/// A region with its contents replaced.
pub open spec fn region_with_contents(region: RegionModel, contents: Seq<u8>) -> RegionModel {
    RegionModel { contents, ..region }
}

/// The table of native shims, from `(module, function)` to entry address.
/// Module and function names are taken without regard to case.
pub struct SymbolicLinker {
    pub function_map: StringHashMap<usize>,
}

impl View for SymbolicLinker {
    type V = Map<Seq<char>, usize>;

    open spec fn view(&self) -> Map<Seq<char>, usize> {
        self.function_map@
    }
}

impl SymbolicLinker {
    /// The key under which a symbol is filed.
    fn key(dll: &str, function: &str) -> (key: String)
        ensures
            key@ == symbol_key(dll@, function@),
    {
        let mut key = lowercase(dll);
        let lowered = lowercase(function);
        key.append("!");
        key.append(lowered.as_str());
        key
    }

    /// A table that holds the core shims.
    pub fn new(shims: CoreShims) -> (linker: SymbolicLinker)
        ensures
            linker@ == core_table(shims),
    {
        let mut linker = SymbolicLinker { function_map: StringHashMap::new() };
        linker.bootstrap_core_apis(shims);
        linker
    }

    /// A table that holds nothing.
    pub fn empty() -> (linker: SymbolicLinker)
        ensures
            linker@ == Map::<Seq<char>, usize>::empty(),
    {
        SymbolicLinker { function_map: StringHashMap::new() }
    }

    /// Registers the core shims: the system-information and tick-count
    /// queries of `kernel32.dll` and the desktop-window query of `user32.dll`.
    pub fn bootstrap_core_apis(&mut self, shims: CoreShims)
        ensures
            final(self)@ == register_spec(
                register_spec(
                    register_spec(
                        old(self)@,
                        "kernel32.dll"@,
                        "GetSystemInfo"@,
                        shims.get_system_info,
                    ),
                    "kernel32.dll"@,
                    "GetTickCount"@,
                    shims.get_tick_count,
                ),
                "user32.dll"@,
                "GetDesktopWindow"@,
                shims.get_desktop_window,
            ),
    {
        self.register("kernel32.dll", "GetSystemInfo", shims.get_system_info);
        self.register("kernel32.dll", "GetTickCount", shims.get_tick_count);
        self.register("user32.dll", "GetDesktopWindow", shims.get_desktop_window);
    }

    /// Registers a shim. A second registration of the same symbol replaces
    /// the first.
    pub fn register(&mut self, dll: &str, function: &str, address: usize)
        ensures
            final(self)@ == register_spec(old(self)@, dll@, function@, address),
    {
        let key = Self::key(dll, function);
        self.function_map.insert(key, address);
    }

    /// The address registered for a symbol, if there is one.
    pub fn resolve(&self, dll: &str, function: &str) -> (address: Option<usize>)
        ensures
            address == resolve_spec(self@, dll@, function@),
    {
        let key = Self::key(dll, function);
        match self.function_map.get(key.as_str()) {
            Some(address) => Some(*address),
            None => None,
        }
    }

    /// Handles one import: resolves it and, where it can be patched, writes
    /// the address into its slot.
    fn link_symbol(
        &self,
        module: &String,
        symbol: &ImportedSymbol,
        wide_slots: bool,
        contents: &mut Vec<u8>,
        resolved: &mut Vec<ImportEntry>,
        unresolved: &mut Vec<ImportEntry>,
    )
        ensures
            state_of(final(contents)@, final(resolved)@, final(unresolved)@) == link_one(
                self@,
                module@,
                symbol@,
                wide_slots,
                state_of(old(contents)@, old(resolved)@, old(unresolved)@),
            ),
            final(contents)@.len() == old(contents)@.len(),
    {
        let width: u64 = if wide_slots {
            8
        } else {
            4
        };
        let found = self.resolve(module.as_str(), symbol.name_or_ordinal.as_str());
        let fits = symbol.iat_slot_rva as u128 + width as u128 <= contents.len() as u128;
        match found {
            Some(address) => {
                if fits && (wide_slots || address as u64 <= u32::MAX as u64) {
                    let bytes = if wide_slots {
                        u64_to_le_bytes(address as u64)
                    } else {
                        u32_to_le_bytes(address as u32)
                    };
                    place_bytes(
                        contents,
                        symbol.iat_slot_rva as usize,
                        bytes.as_slice(),
                        0,
                        width as usize,
                    );
                    assert(bytes@.subrange(0, width as int) =~= slot_bytes(address, wide_slots));
                    resolved.push(
                        ImportEntry {
                            dll: module.clone(),
                            function: symbol.name_or_ordinal.clone(),
                            address: address as u64,
                        },
                    );
                    assert(resolved@.map_values(|e: ImportEntry| e@) =~= old(
                        resolved,
                    )@.map_values(|e: ImportEntry| e@).push(
                        EntryModel {
                            dll: module@,
                            function: symbol@.name_or_ordinal,
                            address: address as u64,
                        },
                    ));
                    return ;
                }
            },
            None => {},
        }
        unresolved.push(
            ImportEntry {
                dll: module.clone(),
                function: symbol.name_or_ordinal.clone(),
                address: 0,
            },
        );
        assert(unresolved@.map_values(|e: ImportEntry| e@) =~= old(unresolved)@.map_values(
            |e: ImportEntry| e@,
        ).push(EntryModel { dll: module@, function: symbol@.name_or_ordinal, address: 0 }));
    }

    /// Links an image: walks every import in order, resolves it against the
    /// table and writes each resolved address, in little endian, into the
    /// import's slot of the region's contents. An import that cannot be
    /// resolved or patched is reported as unresolved and does not stop the
    /// pass. Nothing of the region but its contents changes.
    pub fn link_image(&self, descriptor: &ImageDescriptor, region: &mut MemoryRegion) -> (report:
        LinkReport)
        ensures
            ({
                let end = link_spec(
                    self@,
                    descriptor@.imports,
                    descriptor@.wide_slots,
                    old(region)@.contents,
                );
                &&& final(region)@ == region_with_contents(old(region)@, end.contents)
                &&& report.resolved_model() == end.resolved
                &&& report.unresolved_model() == end.unresolved
                &&& end.contents.len() == old(region)@.contents.len()
            }),
    {
        let mut resolved: Vec<ImportEntry> = Vec::new();
        let mut unresolved: Vec<ImportEntry> = Vec::new();
        let mut contents: Vec<u8> = Vec::new();
        std::mem::swap(&mut region.contents, &mut contents);
        let ghost table = self@;
        let ghost imports = descriptor@.imports;
        let wide_slots = descriptor.wide_slots;
        assert(resolved@.map_values(|e: ImportEntry| e@) =~= Seq::<EntryModel>::empty());
        assert(unresolved@.map_values(|e: ImportEntry| e@) =~= Seq::<EntryModel>::empty());
        assert(contents@ == old(region)@.contents);
        let mut m: usize = 0;
        while m < descriptor.imports.len()
            invariant
                m <= descriptor.imports.len(),
                contents@.len() == old(region)@.contents.len(),
                table == self@,
                imports == descriptor@.imports,
                wide_slots == descriptor@.wide_slots,
                state_of(contents@, resolved@, unresolved@) == link_modules(
                    table,
                    imports,
                    m as nat,
                    wide_slots,
                    link_start(old(region)@.contents),
                ),
            decreases descriptor.imports.len() - m,
        {
            let module = &descriptor.imports[m];
            let ghost before = link_modules(
                table,
                imports,
                m as nat,
                wide_slots,
                link_start(old(region)@.contents),
            );
            assert(imports[m as int] == module@);
            let mut k: usize = 0;
            while k < module.symbols.len()
                invariant
                    k <= module.symbols.len(),
                    contents@.len() == old(region)@.contents.len(),
                    table == self@,
                    state_of(contents@, resolved@, unresolved@) == link_symbols(
                        table,
                        module@.module_name,
                        module@.symbols,
                        k as nat,
                        wide_slots,
                        before,
                    ),
                decreases module.symbols.len() - k,
            {
                assert(module@.symbols[k as int] == module.symbols@[k as int]@);
                self.link_symbol(
                    &module.module_name,
                    &module.symbols[k],
                    wide_slots,
                    &mut contents,
                    &mut resolved,
                    &mut unresolved,
                );
                k += 1;
            }
            m += 1;
        }
        std::mem::swap(&mut region.contents, &mut contents);
        LinkReport { resolved, unresolved }
    }
}

/// Last registration wins: after two registrations of one symbol the table is
/// the one that the second alone would have given, the symbol resolves to the
/// second address, and no other key was touched.
pub proof fn lemma_last_registration_wins(
    table: Map<Seq<char>, usize>,
    module: Seq<char>,
    function: Seq<char>,
    first: usize,
    second: usize,
)
    ensures
        ({
            let twice = register_spec(
                register_spec(table, module, function, first),
                module,
                function,
                second,
            );
            &&& resolve_spec(twice, module, function) == Some(second)
            &&& twice == register_spec(table, module, function, second)
            &&& twice.dom() == table.dom().insert(symbol_key(module, function))
            &&& forall|key: Seq<char>|
                key != symbol_key(module, function) && table.contains_key(key) ==> twice[key]
                    == table[key]
        }),
{
    let twice = register_spec(register_spec(table, module, function, first), module, function, second);
    assert(twice =~= register_spec(table, module, function, second));
    assert(twice.dom() =~= table.dom().insert(symbol_key(module, function)));
}

/// Registering a symbol again with the same address changes nothing.
pub proof fn lemma_registration_idempotent(
    table: Map<Seq<char>, usize>,
    module: Seq<char>,
    function: Seq<char>,
    address: usize,
)
    ensures
        register_spec(register_spec(table, module, function, address), module, function, address)
            == register_spec(table, module, function, address),
{
    assert(register_spec(
        register_spec(table, module, function, address),
        module,
        function,
        address,
    ) =~= register_spec(table, module, function, address));
}

/// Names that agree up to case resolve alike.
pub proof fn lemma_resolution_ignores_case(
    table: Map<Seq<char>, usize>,
    module: Seq<char>,
    function: Seq<char>,
    other_module: Seq<char>,
    other_function: Seq<char>,
)
    ensures
        lowercase_of(module) == lowercase_of(other_module) && lowercase_of(function)
            == lowercase_of(other_function) ==> resolve_spec(table, module, function)
            == resolve_spec(table, other_module, other_function),
{
}

/// Number of symbols that the first `n` modules import.
pub open spec fn symbol_count(imports: Seq<ImportModel>, n: nat) -> nat
    decreases n,
{
    if n == 0 {
        0
    } else {
        symbol_count(imports, (n - 1) as nat) + imports[n - 1].symbols.len()
    }
}

/// Handling the symbols of one module reports each of them once and keeps
/// the length of the contents.
proof fn lemma_symbols_accounted(
    table: Map<Seq<char>, usize>,
    module: Seq<char>,
    symbols: Seq<SymbolModel>,
    n: nat,
    wide_slots: bool,
    state: LinkState,
)
    ensures
        ({
            let end = link_symbols(table, module, symbols, n, wide_slots, state);
            &&& end.resolved.len() + end.unresolved.len() == state.resolved.len()
                + state.unresolved.len() + n
            &&& end.contents.len() == state.contents.len()
        }),
    decreases n,
{
    if n > 0 {
        lemma_symbols_accounted(table, module, symbols, (n - 1) as nat, wide_slots, state);
    }
}

/// Handling the first `n` modules reports each of their symbols once and
/// keeps the length of the contents.
proof fn lemma_modules_accounted(
    table: Map<Seq<char>, usize>,
    imports: Seq<ImportModel>,
    n: nat,
    wide_slots: bool,
    state: LinkState,
)
    ensures
        ({
            let end = link_modules(table, imports, n, wide_slots, state);
            &&& end.resolved.len() + end.unresolved.len() == state.resolved.len()
                + state.unresolved.len() + symbol_count(imports, n)
            &&& end.contents.len() == state.contents.len()
        }),
    decreases n,
{
    if n > 0 {
        lemma_modules_accounted(table, imports, (n - 1) as nat, wide_slots, state);
        lemma_symbols_accounted(
            table,
            imports[n - 1].module_name,
            imports[n - 1].symbols,
            imports[n - 1].symbols.len(),
            wide_slots,
            link_modules(table, imports, (n - 1) as nat, wide_slots, state),
        );
    }
}

/// A link pass accounts for every import: each is reported once, as resolved
/// or as unresolved, and the pass never fails. The contents keep their
/// length.
pub proof fn lemma_link_accounts_for_every_import(
    table: Map<Seq<char>, usize>,
    imports: Seq<ImportModel>,
    wide_slots: bool,
    contents: Seq<u8>,
)
    ensures
        ({
            let end = link_spec(table, imports, wide_slots, contents);
            &&& end.resolved.len() + end.unresolved.len() == symbol_count(imports, imports.len())
            &&& end.contents.len() == contents.len()
        }),
{
    lemma_modules_accounted(table, imports, imports.len(), wide_slots, link_start(contents));
}

/// Against a table that holds nothing, no import is resolved and the
/// contents stay as they are.
pub proof fn lemma_nothing_registered_nothing_patched(
    imports: Seq<ImportModel>,
    wide_slots: bool,
    contents: Seq<u8>,
)
    ensures
        link_spec(Map::empty(), imports, wide_slots, contents).resolved.len() == 0,
        link_spec(Map::empty(), imports, wide_slots, contents).contents == contents,
{
    lemma_empty_table_modules(imports, imports.len(), wide_slots, contents);
}

/// Against a table that holds nothing, the first `n` modules leave the
/// contents alone and resolve nothing.
proof fn lemma_empty_table_modules(imports: Seq<ImportModel>, n: nat, wide_slots: bool, contents: Seq<u8>)
    ensures
        link_modules(Map::empty(), imports, n, wide_slots, link_start(contents)).resolved.len() == 0,
        link_modules(Map::empty(), imports, n, wide_slots, link_start(contents)).contents == contents,
    decreases n,
{
    if n > 0 {
        lemma_empty_table_modules(imports, (n - 1) as nat, wide_slots, contents);
        lemma_empty_table_symbols(
            imports[n - 1].module_name,
            imports[n - 1].symbols,
            imports[n - 1].symbols.len(),
            wide_slots,
            link_modules(Map::empty(), imports, (n - 1) as nat, wide_slots, link_start(contents)),
        );
    }
}

/// Against a table that holds nothing, the symbols of one module leave the
/// contents and the resolved imports alone.
proof fn lemma_empty_table_symbols(
    module: Seq<char>,
    symbols: Seq<SymbolModel>,
    n: nat,
    wide_slots: bool,
    state: LinkState,
)
    ensures
        link_symbols(Map::empty(), module, symbols, n, wide_slots, state).resolved
            == state.resolved,
        link_symbols(Map::empty(), module, symbols, n, wide_slots, state).contents
            == state.contents,
    decreases n,
{
    if n > 0 {
        lemma_empty_table_symbols(module, symbols, (n - 1) as nat, wide_slots, state);
    }
}

} // verus!
