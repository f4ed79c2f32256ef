use hangdetect::cuda_funcs::{CuLaunchConfig, CudaLaunchConfig, Dim3, VendorApi};
use std::cell::{Cell, RefCell};
use std::collections::HashMap;
use hangdetect::cuda_funcs::{
    check_query, check_status, check_value, cu_func_get_name, cuda_stream_get_id,
    get_cuda_func_name, launch_cu_kernel, launch_cu_kernel_ex, launch_cuda_kernel,
    launch_cuda_kernel_ex_c, status_code, CUDAError, CUDAEvent, CUDA_ERROR_NOT_READY,
    CUDA_SUCCESS,
};

/// A scripted vendor: every entry point answers with the status set for it
/// and notes the call.
struct MockVendor {
    calls: RefCell<Vec<String>>,
    names: RefCell<HashMap<usize, String>>,
    next_event: Cell<usize>,
    launch_status: Cell<i32>,
    name_status: Cell<i32>,
    stream_status: Cell<i32>,
    create_status: Cell<i32>,
    destroy_status: Cell<i32>,
    record_status: Cell<i32>,
    query_status: Cell<i32>,
    elapsed_status: Cell<i32>,
    elapsed_bits: Cell<u32>,
}

impl MockVendor {
    fn new() -> MockVendor {
        MockVendor {
            calls: RefCell::new(Vec::new()),
            names: RefCell::new(HashMap::new()),
            next_event: Cell::new(1000),
            launch_status: Cell::new(0),
            name_status: Cell::new(0),
            stream_status: Cell::new(0),
            create_status: Cell::new(0),
            destroy_status: Cell::new(0),
            record_status: Cell::new(0),
            query_status: Cell::new(0),
            elapsed_status: Cell::new(0),
            elapsed_bits: Cell::new(0),
        }
    }

    fn with_name(func: usize, symbol: &str) -> MockVendor {
        let vendor = MockVendor::new();
        vendor.names.borrow_mut().insert(func, symbol.to_string());
        vendor
    }

    fn note(&self, call: String) {
        self.calls.borrow_mut().push(call);
    }

    fn count(&self, prefix: &str) -> usize {
        self.calls.borrow().iter().filter(|c| c.starts_with(prefix)).count()
    }

    fn has(&self, call: &str) -> bool {
        self.calls.borrow().iter().any(|c| c == call)
    }
}

impl VendorApi for MockVendor {
    fn cuda_launch_kernel(
        &self,
        func: usize,
        grid_dim: Dim3,
        block_dim: Dim3,
        args: usize,
        shared_mem: usize,
        stream: usize,
    ) -> i32 {
        self.note(format!(
            "cuda_launch_kernel({},{}x{}x{},{}x{}x{},{},{},{})",
            func,
            grid_dim.x,
            grid_dim.y,
            grid_dim.z,
            block_dim.x,
            block_dim.y,
            block_dim.z,
            args,
            shared_mem,
            stream
        ));
        self.launch_status.get()
    }

    fn cuda_launch_kernel_ex_c(&self, config: &CudaLaunchConfig, func: usize, args: usize) -> i32 {
        self.note(format!("cuda_launch_kernel_ex_c({},{},{})", config.stream, func, args));
        self.launch_status.get()
    }

    fn cu_launch_kernel(
        &self,
        func: usize,
        grid_dim_x: u32,
        grid_dim_y: u32,
        grid_dim_z: u32,
        block_dim_x: u32,
        block_dim_y: u32,
        block_dim_z: u32,
        shared_mem: u32,
        stream: usize,
        kernel_params: usize,
        extra: usize,
    ) -> i32 {
        self.note(format!(
            "cu_launch_kernel({},{}x{}x{},{}x{}x{},{},{},{},{})",
            func,
            grid_dim_x,
            grid_dim_y,
            grid_dim_z,
            block_dim_x,
            block_dim_y,
            block_dim_z,
            shared_mem,
            stream,
            kernel_params,
            extra
        ));
        self.launch_status.get()
    }

    fn cu_launch_kernel_ex(&self, config: &CuLaunchConfig, func: usize, args: usize) -> i32 {
        self.note(format!("cu_launch_kernel_ex({},{},{})", config.stream, func, args));
        self.launch_status.get()
    }

    fn cuda_func_get_name(&self, func: usize) -> (i32, String) {
        self.note(format!("cuda_func_get_name({})", func));
        let name = self.names.borrow().get(&func).cloned().unwrap_or_default();
        (self.name_status.get(), name)
    }

    fn cu_func_get_name(&self, func: usize) -> (i32, String) {
        self.note(format!("cu_func_get_name({})", func));
        let name = self.names.borrow().get(&func).cloned().unwrap_or_default();
        (self.name_status.get(), name)
    }

    fn cuda_stream_get_id(&self, stream: usize) -> (i32, u64) {
        self.note(format!("cuda_stream_get_id({})", stream));
        (self.stream_status.get(), stream as u64)
    }

    fn cuda_event_create_with_flags(&self, flags: u32) -> (i32, usize) {
        self.note(format!("cuda_event_create_with_flags({})", flags));
        let event = self.next_event.get();
        self.next_event.set(event + 1);
        (self.create_status.get(), event)
    }

    fn cuda_event_destroy(&self, event: usize) -> i32 {
        self.note(format!("cuda_event_destroy({})", event));
        self.destroy_status.get()
    }

    fn cuda_event_record(&self, event: usize, stream: usize) -> i32 {
        self.note(format!("cuda_event_record({},{})", event, stream));
        self.record_status.get()
    }

    fn cuda_event_elapsed_time(&self, begin: usize, end: usize) -> (i32, u32) {
        self.note(format!("cuda_event_elapsed_time({},{})", begin, end));
        (self.elapsed_status.get(), self.elapsed_bits.get())
    }

    fn cuda_event_query(&self, event: usize) -> i32 {
        self.note(format!("cuda_event_query({})", event));
        self.query_status.get()
    }
}

fn dim(x: u32, y: u32, z: u32) -> Dim3 {
    Dim3 { x, y, z }
}

#[test]
fn status_zero_is_success() {
    assert_eq!(check_status(0), Ok(()));
    assert_eq!(CUDA_SUCCESS, 0);
}

#[test]
fn status_nonzero_keeps_the_raw_code() {
    assert_eq!(check_status(77), Err(CUDAError { code: 77 }));
    assert_eq!(check_status(-3), Err(CUDAError { code: -3 }));
    assert_eq!(check_status(600), Err(CUDAError { code: 600 }));
}

#[test]
fn value_is_kept_only_on_success() {
    assert_eq!(check_value(0, 9u64), Ok(9));
    assert_eq!(check_value(4, 9u64), Err(CUDAError { code: 4 }));
}

#[test]
fn query_status_has_one_sentinel() {
    assert_eq!(CUDA_ERROR_NOT_READY, 600);
    assert_eq!(check_query(0), Ok(true));
    assert_eq!(check_query(600), Ok(false));
    assert_eq!(check_query(601), Err(CUDAError { code: 601 }));
    assert_eq!(check_query(1), Err(CUDAError { code: 1 }));
}

#[test]
fn status_round_trips() {
    for status in [0, 1, 77, 600, -1, i32::MAX, i32::MIN] {
        assert_eq!(status_code(&check_status(status)), status);
    }
}

#[test]
fn error_message_names_the_code() {
    assert_eq!(CUDAError { code: 77 }.message(), "CUDA error code: 77");
    assert_eq!(CUDAError { code: -5 }.message(), "CUDA error code: -5");
    assert_eq!(CUDAError { code: i32::MIN }.message(), "CUDA error code: -2147483648");
}

#[test]
fn runtime_name_comes_from_the_runtime_resolver() {
    let vendor = MockVendor::with_name(7, "kernel");
    assert_eq!(get_cuda_func_name(&vendor, 7), Ok("kernel".to_string()));
    assert!(vendor.has("cuda_func_get_name(7)"));
    assert_eq!(vendor.count("cu_func_get_name"), 0);
    vendor.name_status.set(3);
    assert_eq!(get_cuda_func_name(&vendor, 7), Err(CUDAError { code: 3 }));
}

#[test]
fn driver_name_comes_from_the_driver_resolver() {
    let vendor = MockVendor::with_name(7, "kernel");
    assert_eq!(cu_func_get_name(&vendor, 7), Ok("kernel".to_string()));
    assert!(vendor.has("cu_func_get_name(7)"));
    assert_eq!(vendor.count("cuda_func_get_name"), 0);
    vendor.name_status.set(9);
    assert_eq!(cu_func_get_name(&vendor, 7), Err(CUDAError { code: 9 }));
}

#[test]
fn stream_id_is_the_vendors() {
    let vendor = MockVendor::new();
    assert_eq!(cuda_stream_get_id(&vendor, 42), Ok(42));
    vendor.stream_status.set(5);
    assert_eq!(cuda_stream_get_id(&vendor, 42), Err(CUDAError { code: 5 }));
}

#[test]
fn launches_forward_every_argument() {
    let vendor = MockVendor::new();
    assert_eq!(launch_cuda_kernel(&vendor, 1, dim(2, 3, 4), dim(5, 6, 7), 8, 9, 10), Ok(()));
    assert!(vendor.has("cuda_launch_kernel(1,2x3x4,5x6x7,8,9,10)"));
    assert_eq!(launch_cu_kernel(&vendor, 1, 2, 3, 4, 5, 6, 7, 8, 9, 10, 11), Ok(()));
    assert!(vendor.has("cu_launch_kernel(1,2x3x4,5x6x7,8,9,10,11)"));
    let config = CudaLaunchConfig {
        grid_dim: dim(1, 1, 1),
        block_dim: dim(1, 1, 1),
        dynamic_smem_bytes: 0,
        stream: 33,
        attrs: 0,
        num_attrs: 0,
    };
    assert_eq!(launch_cuda_kernel_ex_c(&vendor, &config, 4, 5), Ok(()));
    assert!(vendor.has("cuda_launch_kernel_ex_c(33,4,5)"));
    let config = CuLaunchConfig {
        grid_dim_x: 1,
        grid_dim_y: 1,
        grid_dim_z: 1,
        block_dim_x: 1,
        block_dim_y: 1,
        block_dim_z: 1,
        shared_mem_bytes: 0,
        stream: 44,
        attrs: 0,
        num_attrs: 0,
    };
    assert_eq!(launch_cu_kernel_ex(&vendor, &config, 6, 7), Ok(()));
    assert!(vendor.has("cu_launch_kernel_ex(44,6,7)"));
}

#[test]
fn launch_failure_keeps_the_code() {
    let vendor = MockVendor::new();
    vendor.launch_status.set(77);
    assert_eq!(
        launch_cuda_kernel(&vendor, 1, dim(1, 1, 1), dim(1, 1, 1), 0, 0, 0),
        Err(CUDAError { code: 77 })
    );
    assert_eq!(
        launch_cu_kernel(&vendor, 1, 1, 1, 1, 1, 1, 1, 0, 0, 0, 0),
        Err(CUDAError { code: 77 })
    );
}

#[test]
fn event_is_created_with_default_flags() {
    let vendor = MockVendor::new();
    let event = CUDAEvent::new(&vendor).unwrap();
    assert_eq!(event.event, 1000);
    assert!(vendor.has("cuda_event_create_with_flags(0)"));
    vendor.create_status.set(2);
    assert_eq!(CUDAEvent::new(&vendor).unwrap_err(), CUDAError { code: 2 });
}

#[test]
fn event_is_recorded_on_the_given_stream() {
    let vendor = MockVendor::new();
    let event = CUDAEvent { event: 5 };
    assert_eq!(event.record(&vendor, 9), Ok(()));
    assert!(vendor.has("cuda_event_record(5,9)"));
    vendor.record_status.set(700);
    assert_eq!(event.record(&vendor, 9), Err(CUDAError { code: 700 }));
}

#[test]
fn event_query_tells_ready_from_not_ready() {
    let vendor = MockVendor::new();
    let event = CUDAEvent { event: 5 };
    assert_eq!(event.query(&vendor), Ok(true));
    vendor.query_status.set(600);
    assert_eq!(event.query(&vendor), Ok(false));
    vendor.query_status.set(4);
    assert_eq!(event.query(&vendor), Err(CUDAError { code: 4 }));
    assert_eq!(vendor.count("cuda_event_query(5)"), 3);
}

#[test]
fn elapsed_time_runs_from_begin_to_self() {
    let vendor = MockVendor::new();
    vendor.elapsed_bits.set(50.0f32.to_bits());
    let begin = CUDAEvent { event: 1 };
    let end = CUDAEvent { event: 2 };
    let bits = end.since(&vendor, &begin).unwrap();
    assert_eq!(f32::from_bits(bits), 50.0);
    assert!(vendor.has("cuda_event_elapsed_time(1,2)"));
    vendor.elapsed_status.set(8);
    assert_eq!(end.since(&vendor, &begin), Err(CUDAError { code: 8 }));
}

#[test]
fn destroy_reports_the_vendors_answer() {
    let vendor = MockVendor::new();
    assert_eq!(CUDAEvent { event: 3 }.destroy(&vendor), Ok(()));
    assert!(vendor.has("cuda_event_destroy(3)"));
    vendor.destroy_status.set(11);
    assert_eq!(CUDAEvent { event: 4 }.destroy(&vendor), Err(CUDAError { code: 11 }));
}
