//! The descriptor of a pending launch and the cache of kernel names.

use crate::cuda_funcs::{cu_func_get_name, cuda_stream_get_id, get_cuda_func_name};
use crate::cuda_funcs::{cu_func_name_returned, cuda_func_name_returned, stream_id_returned};
use crate::cuda_funcs::{CUDAError, VendorApi};
use crate::monitor::error::{FormatError, MonitorError};
use crate::monitor::log_entry::{lines, push_line, warn_line, LogEntry, LogEntryView};
use std::collections::HashMap;
use vstd::prelude::*;

verus! {

/// The demangled form of a symbol under the Itanium C++ rules, where the
/// symbol is a mangled name.
pub uninterp spec fn demangled_symbol(symbol: Seq<char>) -> Option<Seq<char>>;

/// The views of an optional string.
pub open spec fn option_text(s: Option<String>) -> Option<Seq<char>> {
    match s {
        Some(s) => Some(s@),
        None => None,
    }
}

/// Parses `symbol` with `cpp_demangle::Symbol::new` and renders it with
/// `Symbol::demangle`, both with their default options. `None` when either
/// step fails. The contract claims only that the outcome is a function of the
/// symbol's text.
#[verifier::external_body]
fn demangle(symbol: &str) -> (r: Option<String>)
    ensures
        option_text(r) == demangled_symbol(symbol@),
{
    match cpp_demangle::Symbol::new(symbol) {
        Ok(parsed) => parsed.demangle().ok(),
        Err(_) => None,
    }
}

/// The name of a kernel: its raw symbol and, where the symbol demangles, the
/// demangled form.
#[derive(Debug)]
pub struct FuncName {
    symbol: String,
    demangled: Option<String>,
}

/// The content of a `FuncName`.
pub struct FuncNameView {
    pub symbol: Seq<char>,
    pub demangled: Option<Seq<char>>,
}

impl FuncNameView {
    /// The demangled form if there is one, else the raw symbol.
    pub open spec fn display_name(self) -> Seq<char> {
        match self.demangled {
            Some(d) => d,
            None => self.symbol,
        }
    }
}

/// The name under which a raw symbol is cached.
pub open spec fn resolved_name(symbol: Seq<char>) -> FuncNameView {
    FuncNameView { symbol, demangled: demangled_symbol(symbol) }
}

impl View for FuncName {
    type V = FuncNameView;

    closed spec fn view(&self) -> FuncNameView {
        FuncNameView { symbol: self.symbol@, demangled: option_text(self.demangled) }
    }
}

impl FuncName {
    /// A name from its parts.
    pub fn new(symbol: String, demangled: Option<String>) -> (r: FuncName)
        ensures
            r@ == (FuncNameView { symbol: symbol@, demangled: option_text(demangled) }),
    {
        FuncName { symbol, demangled }
    }

    /// The name of a raw symbol, demangled where possible.
    pub fn resolve(symbol: String) -> (r: FuncName)
        ensures
            r@ == resolved_name(symbol@),
    {
        let demangled = demangle(symbol.as_str());
        FuncName { symbol, demangled }
    }

    /// The raw symbol.
    pub fn symbol(&self) -> (r: &str)
        ensures
            r@ == self@.symbol,
    {
        self.symbol.as_str()
    }

    /// Whether the symbol demangled.
    pub fn is_demangled(&self) -> (r: bool)
        ensures
            r == self@.demangled.is_some(),
    {
        self.demangled.is_some()
    }

    /// The demangled form if there is one, else the raw symbol.
    pub fn display_name(&self) -> (r: &str)
        ensures
            r@ == self@.display_name(),
    {
        if let Some(demangled) = &self.demangled {
            demangled.as_str()
        } else {
            self.symbol.as_str()
        }
    }

    /// A copy of this name.
    pub fn duplicate(&self) -> (r: FuncName)
        ensures
            r@ == self@,
    {
        let demangled = match &self.demangled {
            Some(d) => Some(d.clone()),
            None => None,
        };
        FuncName { symbol: self.symbol.clone(), demangled }
    }
}

/// The lines that resolving a symbol adds: a warning if the symbol does not
/// demangle, else none.
pub open spec fn demangle_warning(symbol: Seq<char>) -> Seq<LogEntryView> {
    if demangled_symbol(symbol) is None {
        seq![warn_line("failed to demangle symbol "@ + symbol)]
    } else {
        Seq::empty()
    }
}

/// How a miss on `func` ends once the resolver has returned `resolved`: a
/// resolved symbol is cached under `func` and returned, whether or not it
/// demangles, with a warning if it does not; a resolver failure is returned
/// with its code, caches nothing and writes nothing.
pub open spec fn miss_outcome(
    before: Map<usize, FuncNameView>,
    after: Map<usize, FuncNameView>,
    func: usize,
    resolved: Result<String, CUDAError>,
    log: Seq<LogEntryView>,
    log_after: Seq<LogEntryView>,
    r: Result<FuncName, MonitorError>,
) -> bool {
    match resolved {
        Ok(symbol) => {
            &&& after == before.insert(func, resolved_name(symbol@))
            &&& log_after =~= log + demangle_warning(symbol@)
            &&& r matches Ok(name) && name@ == resolved_name(symbol@)
        },
        Err(e) => {
            &&& after == before
            &&& log_after == log
            &&& r matches Err(MonitorError::CUDAError(code)) && code == e
        },
    }
}

/// How a hit on `func` ends: the cached name is returned, the cache stays as
/// it is and nothing is written.
pub open spec fn hit_outcome(
    before: Map<usize, FuncNameView>,
    after: Map<usize, FuncNameView>,
    func: usize,
    log: Seq<LogEntryView>,
    log_after: Seq<LogEntryView>,
    r: Result<FuncName, MonitorError>,
) -> bool {
    &&& after == before
    &&& log_after == log
    &&& r matches Ok(name) && name@ == before[func]
}

/// Names of kernels by the address of their function handle. An entry, once
/// set, is never replaced or removed.
pub struct KernelNameCache {
    cache: HashMap<usize, FuncName>,
}

impl View for KernelNameCache {
    type V = Map<usize, FuncNameView>;

    closed spec fn view(&self) -> Map<usize, FuncNameView> {
        self.cache@.map_values(|name: FuncName| name@)
    }
}

/// An empty cache.
pub fn new_kernel_name_cache() -> (r: KernelNameCache)
    ensures
        r@ == Map::<usize, FuncNameView>::empty(),
{
    let r = KernelNameCache { cache: HashMap::new() };
    r
}

impl KernelNameCache {
    /// The cached name of `func`, if any. This is the read path: it never
    /// changes the cache.
    pub fn lookup(&self, func: usize) -> (r: Option<FuncName>)
        ensures
            r is Some <==> self@.contains_key(func),
            r matches Some(name) ==> name@ == self@[func],
    {
        broadcast use vstd::std_specs::hash::group_hash_axioms;

        match self.cache.get(&func) {
            Some(name) => Some(name.duplicate()),
            None => None,
        }
    }

    /// The name of `func`: the cached one if there is one, else the one that
    /// `resolve` gives, which is then cached. The resolver is consulted only
    /// on a miss, so nothing is required of it on a hit.
    pub fn get_name<F: Fn(usize) -> Result<String, CUDAError>>(
        &mut self,
        func: usize,
        resolve: &F,
        log: &mut Vec<LogEntry>,
    ) -> (r: Result<FuncName, MonitorError>)
        requires
            !old(self)@.contains_key(func) ==> resolve.requires((func,)),
        ensures
            old(self)@.contains_key(func) ==> hit_outcome(
                old(self)@,
                final(self)@,
                func,
                lines(*old(log)),
                lines(*final(log)),
                r,
            ),
            !old(self)@.contains_key(func) ==> exists|resolved: Result<String, CUDAError>| #[trigger]
                resolve.ensures((func,), resolved) && miss_outcome(
                    old(self)@,
                    final(self)@,
                    func,
                    resolved,
                    lines(*old(log)),
                    lines(*final(log)),
                    r,
                ),
    {
        broadcast use vstd::std_specs::hash::group_hash_axioms;

        if let Some(name) = self.cache.get(&func) {
            return Ok(name.duplicate());
        }
        let resolved = resolve(func);
        match resolved {
            Err(e) => Err(MonitorError::CUDAError(e)),
            Ok(symbol) => {
                let ghost text = symbol@;
                let demangled = demangle(symbol.as_str());
                if demangled.is_none() {
                    let mut message = String::from_str("failed to demangle symbol ");
                    message.append(symbol.as_str());
                    push_line(log, LogEntry::warn(message));
                }
                let name = FuncName::new(symbol, demangled);
                let copy = name.duplicate();
                self.cache.insert(func, name);
                assert(self@ =~= old(self)@.insert(func, resolved_name(text)));
                Ok(copy)
            },
        }
    }
}

/// The two name caches of the process: one for handles of the runtime API,
/// one for handles of the driver API.
pub struct KernelNames {
    pub runtime: KernelNameCache,
    pub driver: KernelNameCache,
}

impl KernelNames {
    /// Two empty caches.
    pub fn new() -> (r: KernelNames)
        ensures
            r.runtime@ == Map::<usize, FuncNameView>::empty(),
            r.driver@ == Map::<usize, FuncNameView>::empty(),
    {
        KernelNames { runtime: new_kernel_name_cache(), driver: new_kernel_name_cache() }
    }

    /// The content of the cache that serves launches of one API.
    pub open spec fn select(&self, runtime: bool) -> Map<usize, FuncNameView> {
        if runtime {
            self.runtime@
        } else {
            self.driver@
        }
    }

    /// Whether every entry of `self` is still in `later`, unchanged.
    pub open spec fn kept_by(&self, later: &KernelNames) -> bool {
        &&& self.runtime@.submap_of(later.runtime@)
        &&& self.driver@.submap_of(later.driver@)
    }
}

/// A pending launch: the function to run and the stream it is queued on, both
/// by address, and the API through which it was issued.
#[derive(Clone, Copy, Debug, PartialEq, Eq)]
pub enum LaunchCUDAKernel {
    Runtime { func: usize, stream: usize },
    Driver { func: usize, stream: usize },
}

/// The answer of the resolver of one API for `func`.
pub open spec fn resolver_returned<V: VendorApi>(
    vendor: &V,
    runtime: bool,
    func: usize,
    resolved: Result<String, CUDAError>,
) -> bool {
    if runtime {
        cuda_func_name_returned(vendor, func, resolved)
    } else {
        cu_func_name_returned(vendor, func, resolved)
    }
}

/// How a lookup of a stream id ends once the vendor has returned `id`.
pub open spec fn stream_id_outcome(id: Result<u64, CUDAError>, r: Result<u64, MonitorError>) -> bool {
    match id {
        Ok(n) => r matches Ok(m) && m == n,
        Err(e) => r matches Err(MonitorError::CUDAError(code)) && code == e,
    }
}

/// The word that names an API in the display form of a launch.
pub open spec fn api_word(runtime: bool) -> Seq<char> {
    if runtime {
        "Runtime"@
    } else {
        "Driver"@
    }
}

/// The display form of a launch:
/// `<Runtime Kernel: NAME on stream ID>` or `<Driver Kernel: NAME on stream ID>`.
pub open spec fn launch_text(runtime: bool, name: Seq<char>, stream_id: u64) -> Seq<char> {
    "<"@ + api_word(runtime) + " Kernel: "@ + name + " on stream "@ + crate::decimal::decimal(
        stream_id as nat,
    ) + ">"@
}

/// Renders the display form of a launch from its parts.
pub fn format_launch(runtime: bool, name: &str, stream_id: u64) -> (r: String)
    ensures
        r@ == launch_text(runtime, name@, stream_id),
{
    let mut out = String::from_str("<");
    if runtime {
        out.append("Runtime");
    } else {
        out.append("Driver");
    }
    out.append(" Kernel: ");
    out.append(name);
    out.append(" on stream ");
    crate::decimal::push_decimal(&mut out, stream_id);
    out.append(">");
    out
}

impl LaunchCUDAKernel {
    /// Whether the launch was issued through the runtime API.
    pub open spec fn is_runtime(&self) -> bool {
        self is Runtime
    }

    /// The function handle.
    pub open spec fn func(&self) -> usize {
        match self {
            LaunchCUDAKernel::Runtime { func, .. } => *func,
            LaunchCUDAKernel::Driver { func, .. } => *func,
        }
    }

    /// The stream handle.
    pub open spec fn spec_stream(&self) -> usize {
        match self {
            LaunchCUDAKernel::Runtime { stream, .. } => *stream,
            LaunchCUDAKernel::Driver { stream, .. } => *stream,
        }
    }

    /// How a lookup of the launch's function name ends, given the caches and
    /// the lines before and after. Only the cache of the launch's API is
    /// consulted. On a hit the vendor is not asked; on a miss the resolver of
    /// the launch's API is asked once.
    pub open spec fn named<V: VendorApi>(
        &self,
        vendor: &V,
        before: &KernelNames,
        after: &KernelNames,
        log: Seq<LogEntryView>,
        log_after: Seq<LogEntryView>,
        r: Result<FuncName, MonitorError>,
    ) -> bool {
        &&& after.select(!self.is_runtime()) == before.select(!self.is_runtime())
        &&& if before.select(self.is_runtime()).contains_key(self.func()) {
            hit_outcome(
                before.select(self.is_runtime()),
                after.select(self.is_runtime()),
                self.func(),
                log,
                log_after,
                r,
            )
        } else {
            exists|resolved: Result<String, CUDAError>| #[trigger]
                resolver_returned(vendor, self.is_runtime(), self.func(), resolved)
                    && miss_outcome(
                    before.select(self.is_runtime()),
                    after.select(self.is_runtime()),
                    self.func(),
                    resolved,
                    log,
                    log_after,
                    r,
                )
        }
    }

    /// The name of the launched function, from the cache of the launch's API.
    pub fn func_name<V: VendorApi>(
        &self,
        names: &mut KernelNames,
        vendor: &V,
        log: &mut Vec<LogEntry>,
    ) -> (r: Result<FuncName, MonitorError>)
        ensures
            self.named(vendor, old(names), final(names), lines(*old(log)), lines(*final(log)), r),
    {
        match self {
            LaunchCUDAKernel::Runtime { func, .. } => {
                let resolve = |f: usize| -> (resolved: Result<String, CUDAError>)
                    ensures
                        resolver_returned(vendor, true, f, resolved),
                    { get_cuda_func_name(vendor, f) };
                names.runtime.get_name(*func, &resolve, log)
            },
            LaunchCUDAKernel::Driver { func, .. } => {
                let resolve = |f: usize| -> (resolved: Result<String, CUDAError>)
                    ensures
                        resolver_returned(vendor, false, f, resolved),
                    { cu_func_get_name(vendor, f) };
                names.driver.get_name(*func, &resolve, log)
            },
        }
    }

    /// The stream handle.
    #[verifier::when_used_as_spec(spec_stream)]
    pub fn stream(&self) -> (r: usize)
        ensures
            r == self.spec_stream(),
    {
        match self {
            LaunchCUDAKernel::Runtime { stream, .. } => *stream,
            LaunchCUDAKernel::Driver { stream, .. } => *stream,
        }
    }

    /// How rendering a launch ends, given the caches and the lines before and
    /// after. The name is looked up, then the vendor is asked for the id of
    /// the stream. A text is the display form of the name and the id. A
    /// failure means that the vendor failed to give the name or the id.
    pub open spec fn displayed<V: VendorApi>(
        &self,
        vendor: &V,
        before: &KernelNames,
        after: &KernelNames,
        log: Seq<LogEntryView>,
        log_after: Seq<LogEntryView>,
        r: Result<String, FormatError>,
    ) -> bool {
        exists|name: Result<FuncName, MonitorError>| #[trigger]
            self.named(vendor, before, after, log, log_after, name) && match name {
                Err(_) => r is Err,
                Ok(name) => exists|id: Result<u64, CUDAError>| #[trigger]
                    stream_id_returned(vendor, self.stream(), id) && match id {
                        Err(_) => r is Err,
                        Ok(id) => r matches Ok(text) && text@ == launch_text(
                            self.is_runtime(),
                            name@.display_name(),
                            id,
                        ),
                    },
            }
    }

    /// The display form of the launch. It needs the name of the function,
    /// which may be resolved and cached on the way, and the id of the stream.
    /// It fails when either cannot be had.
    pub fn display<V: VendorApi>(
        &self,
        names: &mut KernelNames,
        vendor: &V,
        log: &mut Vec<LogEntry>,
    ) -> (r: Result<String, FormatError>)
        ensures
            self.displayed(
                vendor,
                old(names),
                final(names),
                lines(*old(log)),
                lines(*final(log)),
                r,
            ),
    {
        let named = self.func_name(names, vendor, log);
        let name = match named {
            Ok(name) => name,
            Err(_) => {
                return Err(FormatError);
            },
        };
        let id = cuda_stream_get_id(vendor, self.stream());
        let id = match id {
            Ok(id) => id,
            Err(_) => {
                return Err(FormatError);
            },
        };
        let runtime = match self {
            LaunchCUDAKernel::Runtime { .. } => true,
            LaunchCUDAKernel::Driver { .. } => false,
        };
        Ok(format_launch(runtime, name.display_name(), id))
    }

    /// The numeric id of the launch's stream.
    pub fn stream_id<V: VendorApi>(&self, vendor: &V) -> (r: Result<u64, MonitorError>)
        ensures
            exists|id: Result<u64, CUDAError>| #[trigger]
                stream_id_returned(vendor, self.stream(), id) && stream_id_outcome(id, r),
    {
        let id = cuda_stream_get_id(vendor, self.stream());
        match id {
            Ok(n) => Ok(n),
            Err(e) => Err(MonitorError::CUDAError(e)),
        }
    }
}

/// A lookup changes the caches only by adding the name it resolved, and
/// writes at most one line. A hit and a failure change nothing.
pub proof fn lemma_named_keeps_names<V: VendorApi>(
    launch: LaunchCUDAKernel,
    vendor: &V,
    before: &KernelNames,
    after: &KernelNames,
    log: Seq<LogEntryView>,
    log_after: Seq<LogEntryView>,
    r: Result<FuncName, MonitorError>,
)
    requires
        launch.named(vendor, before, after, log, log_after, r),
    ensures
        before.kept_by(after),
        log.is_prefix_of(log_after),
        log_after.len() <= log.len() + 1,
        r is Ok ==> after.select(launch.is_runtime()).contains_key(launch.func()),
        before.select(launch.is_runtime()).contains_key(launch.func()) || r is Err ==> {
            &&& after.select(launch.is_runtime()) == before.select(launch.is_runtime())
            &&& log_after == log
        },
{
}

/// Rendering a launch changes the caches only by adding the name it resolved,
/// and writes at most one line. With the name cached, it changes nothing.
pub proof fn lemma_displayed_keeps_names<V: VendorApi>(
    launch: LaunchCUDAKernel,
    vendor: &V,
    before: &KernelNames,
    after: &KernelNames,
    log: Seq<LogEntryView>,
    log_after: Seq<LogEntryView>,
    r: Result<String, FormatError>,
)
    requires
        launch.displayed(vendor, before, after, log, log_after, r),
    ensures
        before.kept_by(after),
        log.is_prefix_of(log_after),
        log_after.len() <= log.len() + 1,
        r is Ok ==> after.select(launch.is_runtime()).contains_key(launch.func()),
        before.select(launch.is_runtime()).contains_key(launch.func()) ==> {
            &&& after.select(launch.is_runtime()) == before.select(launch.is_runtime())
            &&& log_after == log
        },
{
    let name = choose|name: Result<FuncName, MonitorError>| #[trigger]
        launch.named(vendor, before, after, log, log_after, name);
    lemma_named_keeps_names(launch, vendor, before, after, log, log_after, name);
}

/// Looking a function up twice asks the resolver at most once: after a lookup
/// that succeeded, the name is cached, so that a second lookup of the same
/// function is a hit. It returns the same name, leaves the caches as they
/// are, and writes nothing; the vendor is not asked.
pub proof fn lemma_second_lookup_is_a_hit<V: VendorApi>(
    launch: LaunchCUDAKernel,
    vendor: &V,
    before: &KernelNames,
    between: &KernelNames,
    after: &KernelNames,
    log: Seq<LogEntryView>,
    log_between: Seq<LogEntryView>,
    log_after: Seq<LogEntryView>,
    first: Result<FuncName, MonitorError>,
    second: Result<FuncName, MonitorError>,
)
    requires
        launch.named(vendor, before, between, log, log_between, first),
        first is Ok,
        launch.named(vendor, between, after, log_between, log_after, second),
    ensures
        hit_outcome(
            between.select(launch.is_runtime()),
            after.select(launch.is_runtime()),
            launch.func(),
            log_between,
            log_after,
            second,
        ),
        second matches Ok(name) && name@ == first->Ok_0@,
        after.select(true) == between.select(true),
        after.select(false) == between.select(false),
{
}

} // verus!
