//! Typed layer over the vendor runtime and driver entry points.
//!
//! [`VendorApi`] is the table of raw entry points: each method hands back the
//! vendor's integer status (and the value written through the out-parameter,
//! which is meaningful only when the status is zero). The functions of this
//! module turn those statuses into `Result`s, keeping the raw code.

use vstd::prelude::*;

verus! {

/// Grid or block extent of a launch.
#[derive(Clone, Copy, Debug, PartialEq, Eq)]
pub struct Dim3 {
    pub x: u32,
    pub y: u32,
    pub z: u32,
}

/// Extended configuration of a runtime launch. `attrs` is the address of the
/// attribute list.
#[derive(Clone, Copy, Debug, PartialEq, Eq)]
pub struct CudaLaunchConfig {
    pub grid_dim: Dim3,
    pub block_dim: Dim3,
    pub dynamic_smem_bytes: usize,
    pub stream: usize,
    pub attrs: usize,
    pub num_attrs: u32,
}

/// Extended configuration of a driver launch. `attrs` is the address of the
/// attribute list.
#[derive(Clone, Copy, Debug, PartialEq, Eq)]
pub struct CuLaunchConfig {
    pub grid_dim_x: u32,
    pub grid_dim_y: u32,
    pub grid_dim_z: u32,
    pub block_dim_x: u32,
    pub block_dim_y: u32,
    pub block_dim_z: u32,
    pub shared_mem_bytes: u32,
    pub stream: usize,
    pub attrs: usize,
    pub num_attrs: u32,
}

/// A non-zero status returned by the vendor.
#[derive(Clone, Copy, Debug, PartialEq, Eq)]
pub struct CUDAError {
    pub code: i32,
}

impl CUDAError {
    /// The text of the error: `CUDA error code: <code>`.
    pub open spec fn message_text(&self) -> Seq<char> {
        "CUDA error code: "@ + crate::decimal::signed_decimal(self.code as int)
    }

    /// The text of the error: `CUDA error code: <code>`.
    pub fn message(&self) -> (r: String)
        ensures
            r@ == self.message_text(),
    {
        let mut out = String::from_str("CUDA error code: ");
        crate::decimal::push_signed(&mut out, self.code);
        out
    }
}

/// Status with which every vendor entry point reports success.
pub const CUDA_SUCCESS: i32 = 0;

/// Status with which an event query reports that the event has not completed.
pub const CUDA_ERROR_NOT_READY: i32 = 600;

/// The raw vendor entry points. Handles (functions, streams, events, argument
/// blocks, launch configurations) are passed by address.
///
/// Nothing is assumed of an implementation: every function of this crate that
/// calls one is proved for whatever status and value comes back.
pub trait VendorApi {
    /// Runtime launch, positional form.
    fn cuda_launch_kernel(
        &self,
        func: usize,
        grid_dim: Dim3,
        block_dim: Dim3,
        args: usize,
        shared_mem: usize,
        stream: usize,
    ) -> i32;

    /// Runtime launch, extended-config form.
    fn cuda_launch_kernel_ex_c(&self, config: &CudaLaunchConfig, func: usize, args: usize) -> i32;

    /// Driver launch, positional form.
    fn cu_launch_kernel(
        &self,
        func: usize,
        grid_dim_x: u32,
        grid_dim_y: u32,
        grid_dim_z: u32,
        block_dim_x: u32,
        block_dim_y: u32,
        block_dim_z: u32,
        shared_mem: u32,
        stream: usize,
        kernel_params: usize,
        extra: usize,
    ) -> i32;

    /// Driver launch, extended-config form.
    fn cu_launch_kernel_ex(&self, config: &CuLaunchConfig, func: usize, args: usize) -> i32;

    /// Runtime symbol name of a function handle.
    fn cuda_func_get_name(&self, func: usize) -> (i32, String);

    /// Driver symbol name of a function handle.
    fn cu_func_get_name(&self, func: usize) -> (i32, String);

    /// Numeric id of a stream.
    fn cuda_stream_get_id(&self, stream: usize) -> (i32, u64);

    /// Creates a timing event with the given flags.
    fn cuda_event_create_with_flags(&self, flags: u32) -> (i32, usize);

    /// Destroys a timing event.
    fn cuda_event_destroy(&self, event: usize) -> i32;

    /// Records an event on a stream.
    fn cuda_event_record(&self, event: usize, stream: usize) -> i32;

    /// Milliseconds between two recorded events, as the bit pattern of an
    /// IEEE-754 single.
    fn cuda_event_elapsed_time(&self, begin: usize, end: usize) -> (i32, u32);

    /// Completion status of an event.
    fn cuda_event_query(&self, event: usize) -> i32;
}

/// What a status means for a call without an out-parameter.
pub open spec fn status_result(status: i32) -> Result<(), CUDAError> {
    if status == CUDA_SUCCESS {
        Ok(())
    } else {
        Err(CUDAError { code: status })
    }
}

/// What a status means for a call that also wrote `value`.
pub open spec fn value_result<T>(status: i32, value: T) -> Result<T, CUDAError> {
    if status == CUDA_SUCCESS {
        Ok(value)
    } else {
        Err(CUDAError { code: status })
    }
}

/// What a status means for an event query: `Ok(true)` when the event has
/// completed, `Ok(false)` when it has not yet, the error otherwise.
pub open spec fn query_result(status: i32) -> Result<bool, CUDAError> {
    if status == CUDA_SUCCESS {
        Ok(true)
    } else if status == CUDA_ERROR_NOT_READY {
        Ok(false)
    } else {
        Err(CUDAError { code: status })
    }
}

/// The status that a result stands for: zero for success, the code otherwise.
pub open spec fn result_status(r: Result<(), CUDAError>) -> i32 {
    match r {
        Ok(_) => CUDA_SUCCESS,
        Err(e) => e.code,
    }
}

/// Converts a vendor status into a `Result`, keeping the raw code.
pub fn check_status(status: i32) -> (r: Result<(), CUDAError>)
    ensures
        r == status_result(status),
{
    if status != CUDA_SUCCESS {
        Err(CUDAError { code: status })
    } else {
        Ok(())
    }
}

/// Converts a vendor status and the value written with it into a `Result`.
pub fn check_value<T>(status: i32, value: T) -> (r: Result<T, CUDAError>)
    ensures
        r == value_result(status, value),
{
    if status != CUDA_SUCCESS {
        Err(CUDAError { code: status })
    } else {
        Ok(value)
    }
}

/// Converts the status of an event query.
pub fn check_query(status: i32) -> (r: Result<bool, CUDAError>)
    ensures
        r == query_result(status),
{
    if status == CUDA_SUCCESS {
        Ok(true)
    } else if status == CUDA_ERROR_NOT_READY {
        Ok(false)
    } else {
        Err(CUDAError { code: status })
    }
}

/// The status to hand back to the host for a result.
pub fn status_code(r: &Result<(), CUDAError>) -> (code: i32)
    ensures
        code == result_status(*r),
{
    match r {
        Ok(_) => CUDA_SUCCESS,
        Err(e) => e.code,
    }
}

/// A status round-trips through `check_status` and `status_code`.
pub proof fn lemma_status_round_trip(status: i32)
    ensures
        result_status(status_result(status)) == status,
{
}

/// The vendor's answer to "runtime name of `func`", as a `Result`.
pub open spec fn cuda_func_name_returned<V: VendorApi>(
    vendor: &V,
    func: usize,
    r: Result<String, CUDAError>,
) -> bool {
    exists|raw: (i32, String)| #[trigger]
        call_ensures(V::cuda_func_get_name, (vendor, func), raw) && r == value_result(
            raw.0,
            raw.1,
        )
}

/// The vendor's answer to "driver name of `func`", as a `Result`.
pub open spec fn cu_func_name_returned<V: VendorApi>(
    vendor: &V,
    func: usize,
    r: Result<String, CUDAError>,
) -> bool {
    exists|raw: (i32, String)| #[trigger]
        call_ensures(V::cu_func_get_name, (vendor, func), raw) && r == value_result(raw.0, raw.1)
}

/// The vendor's answer to "id of `stream`", as a `Result`.
pub open spec fn stream_id_returned<V: VendorApi>(
    vendor: &V,
    stream: usize,
    r: Result<u64, CUDAError>,
) -> bool {
    exists|raw: (i32, u64)| #[trigger]
        call_ensures(V::cuda_stream_get_id, (vendor, stream), raw) && r == value_result(
            raw.0,
            raw.1,
        )
}

/// The vendor's answer to "create an event with default flags", as a `Result`.
pub open spec fn event_created<V: VendorApi>(vendor: &V, r: Result<CUDAEvent, CUDAError>) -> bool {
    exists|raw: (i32, usize)| #[trigger]
        call_ensures(V::cuda_event_create_with_flags, (vendor, 0u32), raw) && r == value_result(
            raw.0,
            CUDAEvent { event: raw.1 },
        )
}

/// The vendor's answer to "record `event` on `stream`", as a `Result`.
pub open spec fn event_recorded<V: VendorApi>(
    vendor: &V,
    event: usize,
    stream: usize,
    r: Result<(), CUDAError>,
) -> bool {
    exists|status: i32| #[trigger]
        call_ensures(V::cuda_event_record, (vendor, event, stream), status) && r == status_result(
            status,
        )
}

/// The vendor's answer to "milliseconds from `begin` to `end`", as a `Result`.
pub open spec fn elapsed_returned<V: VendorApi>(
    vendor: &V,
    begin: usize,
    end: usize,
    r: Result<u32, CUDAError>,
) -> bool {
    exists|raw: (i32, u32)| #[trigger]
        call_ensures(V::cuda_event_elapsed_time, (vendor, begin, end), raw) && r == value_result(
            raw.0,
            raw.1,
        )
}

/// The vendor's answer to "has `event` completed", as a `Result`.
pub open spec fn event_queried<V: VendorApi>(
    vendor: &V,
    event: usize,
    r: Result<bool, CUDAError>,
) -> bool {
    exists|status: i32| #[trigger]
        call_ensures(V::cuda_event_query, (vendor, event), status) && r == query_result(status)
}

/// The vendor's answer to "destroy `event`", as a `Result`.
pub open spec fn event_destroyed<V: VendorApi>(
    vendor: &V,
    event: usize,
    r: Result<(), CUDAError>,
) -> bool {
    exists|status: i32| #[trigger]
        call_ensures(V::cuda_event_destroy, (vendor, event), status) && r == status_result(status)
}

/// Runtime symbol name of `func`.
pub fn get_cuda_func_name<V: VendorApi>(vendor: &V, func: usize) -> (r: Result<String, CUDAError>)
    ensures
        cuda_func_name_returned(vendor, func, r),
{
    let raw = vendor.cuda_func_get_name(func);
    check_value(raw.0, raw.1)
}

/// The vendor's answer to a positional runtime launch, as a `Result`.
pub open spec fn cuda_kernel_launched<V: VendorApi>(
    vendor: &V,
    func: usize,
    grid_dim: Dim3,
    block_dim: Dim3,
    args: usize,
    shared_mem: usize,
    stream: usize,
    r: Result<(), CUDAError>,
) -> bool {
    exists|status: i32| #[trigger]
        call_ensures(
            V::cuda_launch_kernel,
            (vendor, func, grid_dim, block_dim, args, shared_mem, stream),
            status,
        ) && r == status_result(status)
}

/// The vendor's answer to an extended-config runtime launch, as a `Result`.
pub open spec fn cuda_kernel_launched_ex_c<V: VendorApi>(
    vendor: &V,
    config: &CudaLaunchConfig,
    func: usize,
    args: usize,
    r: Result<(), CUDAError>,
) -> bool {
    exists|status: i32| #[trigger]
        call_ensures(V::cuda_launch_kernel_ex_c, (vendor, config, func, args), status) && r
            == status_result(status)
}

/// The vendor's answer to a positional driver launch, as a `Result`.
pub open spec fn cu_kernel_launched<V: VendorApi>(
    vendor: &V,
    func: usize,
    grid_dim: Dim3,
    block_dim: Dim3,
    shared_mem: u32,
    stream: usize,
    kernel_params: usize,
    extra: usize,
    r: Result<(), CUDAError>,
) -> bool {
    exists|status: i32| #[trigger]
        call_ensures(
            V::cu_launch_kernel,
            (
                vendor,
                func,
                grid_dim.x,
                grid_dim.y,
                grid_dim.z,
                block_dim.x,
                block_dim.y,
                block_dim.z,
                shared_mem,
                stream,
                kernel_params,
                extra,
            ),
            status,
        ) && r == status_result(status)
}

/// The vendor's answer to an extended-config driver launch, as a `Result`.
pub open spec fn cu_kernel_launched_ex<V: VendorApi>(
    vendor: &V,
    config: &CuLaunchConfig,
    func: usize,
    args: usize,
    r: Result<(), CUDAError>,
) -> bool {
    exists|status: i32| #[trigger]
        call_ensures(V::cu_launch_kernel_ex, (vendor, config, func, args), status) && r
            == status_result(status)
}

/// Forwards a positional runtime launch.
pub fn launch_cuda_kernel<V: VendorApi>(
    vendor: &V,
    func: usize,
    grid_dim: Dim3,
    block_dim: Dim3,
    args: usize,
    shared_mem: usize,
    stream: usize,
) -> (r: Result<(), CUDAError>)
    ensures
        cuda_kernel_launched(vendor, func, grid_dim, block_dim, args, shared_mem, stream, r),
{
    let status = vendor.cuda_launch_kernel(func, grid_dim, block_dim, args, shared_mem, stream);
    check_status(status)
}

/// Forwards an extended-config runtime launch.
pub fn launch_cuda_kernel_ex_c<V: VendorApi>(
    vendor: &V,
    config: &CudaLaunchConfig,
    func: usize,
    args: usize,
) -> (r: Result<(), CUDAError>)
    ensures
        cuda_kernel_launched_ex_c(vendor, config, func, args, r),
{
    let status = vendor.cuda_launch_kernel_ex_c(config, func, args);
    check_status(status)
}

/// Forwards a positional driver launch.
pub fn launch_cu_kernel<V: VendorApi>(
    vendor: &V,
    func: usize,
    grid_dim_x: u32,
    grid_dim_y: u32,
    grid_dim_z: u32,
    block_dim_x: u32,
    block_dim_y: u32,
    block_dim_z: u32,
    shared_mem: u32,
    stream: usize,
    kernel_params: usize,
    extra: usize,
) -> (r: Result<(), CUDAError>)
    ensures
        cu_kernel_launched(
            vendor,
            func,
            Dim3 { x: grid_dim_x, y: grid_dim_y, z: grid_dim_z },
            Dim3 { x: block_dim_x, y: block_dim_y, z: block_dim_z },
            shared_mem,
            stream,
            kernel_params,
            extra,
            r,
        ),
{
    let status = vendor.cu_launch_kernel(
        func,
        grid_dim_x,
        grid_dim_y,
        grid_dim_z,
        block_dim_x,
        block_dim_y,
        block_dim_z,
        shared_mem,
        stream,
        kernel_params,
        extra,
    );
    check_status(status)
}

/// Forwards an extended-config driver launch.
pub fn launch_cu_kernel_ex<V: VendorApi>(
    vendor: &V,
    config: &CuLaunchConfig,
    func: usize,
    args: usize,
) -> (r: Result<(), CUDAError>)
    ensures
        cu_kernel_launched_ex(vendor, config, func, args, r),
{
    let status = vendor.cu_launch_kernel_ex(config, func, args);
    check_status(status)
}

/// Driver symbol name of `func`.
pub fn cu_func_get_name<V: VendorApi>(vendor: &V, func: usize) -> (r: Result<String, CUDAError>)
    ensures
        cu_func_name_returned(vendor, func, r),
{
    let raw = vendor.cu_func_get_name(func);
    check_value(raw.0, raw.1)
}

/// Numeric id of `stream`.
pub fn cuda_stream_get_id<V: VendorApi>(vendor: &V, stream: usize) -> (r: Result<u64, CUDAError>)
    ensures
        stream_id_returned(vendor, stream, r),
{
    let raw = vendor.cuda_stream_get_id(stream);
    check_value(raw.0, raw.1)
}

/// A vendor timing event, by its handle.
///
/// The handle is released with [`CUDAEvent::destroy`]; an event that is
/// neither destroyed nor returned to the pool keeps its vendor resource.
#[derive(Debug)]
pub struct CUDAEvent {
    pub event: usize,
}

impl View for CUDAEvent {
    type V = usize;

    open spec fn view(&self) -> usize {
        self.event
    }
}

impl CUDAEvent {
    /// Creates an event with default flags.
    pub fn new<V: VendorApi>(vendor: &V) -> (r: Result<CUDAEvent, CUDAError>)
        ensures
            event_created(vendor, r),
    {
        let raw = vendor.cuda_event_create_with_flags(0);
        check_value(raw.0, CUDAEvent { event: raw.1 })
    }

    /// Records this event on `stream`.
    pub fn record<V: VendorApi>(&self, vendor: &V, stream: usize) -> (r: Result<(), CUDAError>)
        ensures
            event_recorded(vendor, self.event, stream, r),
    {
        let status = vendor.cuda_event_record(self.event, stream);
        check_status(status)
    }

    /// Milliseconds elapsed from `begin` to this event, as the bit pattern of
    /// an IEEE-754 single.
    pub fn since<V: VendorApi>(&self, vendor: &V, begin: &CUDAEvent) -> (r: Result<u32, CUDAError>)
        ensures
            elapsed_returned(vendor, begin.event, self.event, r),
    {
        let raw = vendor.cuda_event_elapsed_time(begin.event, self.event);
        check_value(raw.0, raw.1)
    }

    /// Whether the event has completed.
    pub fn query<V: VendorApi>(&self, vendor: &V) -> (r: Result<bool, CUDAError>)
        ensures
            event_queried(vendor, self.event, r),
    {
        let status = vendor.cuda_event_query(self.event);
        check_query(status)
    }

    /// Releases the vendor event. A failure is handed back for the caller to
    /// log; it is never an error of the caller's own operation.
    pub fn destroy<V: VendorApi>(self, vendor: &V) -> (r: Result<(), CUDAError>)
        ensures
            event_destroyed(vendor, self.event, r),
    {
        let status = vendor.cuda_event_destroy(self.event);
        check_status(status)
    }
}

} // verus!
