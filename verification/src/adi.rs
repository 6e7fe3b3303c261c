//! The device identification service of the guest libraries: its start and
//! the plans of its calls.

use vstd::prelude::*;
use vstd::bytes::{spec_u32_from_le_bytes, spec_u64_from_le_bytes};
use vstd::slice::slice_to_vec;
use vstd::string::StringSliceAdditionalSpecFns;
use crate::allocator::Allocator;
use crate::constants::{LIB_ALLOC_BASE, MAX_CDECL_ARGS};
use crate::elf::parsed_elf;
use crate::emu::{
    alloc_temp_bytes, call_plan, ensure_zero_return, machine_setup, return_code, scratch_bytes,
    temp_after, temp_plan, EmuCore,
};
use crate::errors::{VmError, VmErrorView};
use crate::loader::{image_plan, resolved_symbols};
use crate::ops::{append_ops, lemma_ops_view_empty, ops_view, EmuOp, EmuOpView};
use crate::runtime::{lemma_index_of_name_missing, library_names, symbol_address};
use crate::text::{c_string_bytes, normalized_root, to_c_string};
use crate::util::padded_bytes;

verus! {

/// What it takes to start the device identification service.
#[derive(Debug)]
pub struct AdiInit {
    /// The bytes of `libstoreservicescore.so`.
    pub storeservicescore: Vec<u8>,
    /// The bytes of `libCoreADI.so`.
    pub coreadi: Vec<u8>,
    pub library_path: String,
    pub provisioning_path: Option<String>,
    pub identifier: Option<String>,
}

/// What the start of a provisioning hands back.
#[derive(Debug)]
pub struct ProvisioningStartResult {
    pub cpim: Vec<u8>,
    pub session: u32,
}

/// A one-time password and the machine it is for.
#[derive(Debug)]
pub struct OtpResult {
    pub otp: Vec<u8>,
    pub machine_id: Vec<u8>,
}

/// The status with which the guest says that the machine is not provisioned.
pub const NOT_PROVISIONED: i32 = -45061;

/// A guest buffer to make: its payload, and the byte that fills the rest of
/// its pages.
#[derive(Debug)]
pub struct BufferRequest {
    pub payload: Vec<u8>,
    pub fill: u8,
}

impl View for BufferRequest {
    type V = (Seq<u8>, u8);

    open spec fn view(&self) -> (Seq<u8>, u8) {
        (self.payload@, self.fill)
    }
}

pub open spec fn request_views(requests: Seq<BufferRequest>) -> Seq<(Seq<u8>, u8)> {
    requests.map_values(|r: BufferRequest| r@)
}

/// The allocator after the first `count` of the buffers were made, one after
/// the other, as far as that went.
pub open spec fn buffers_after(allocator: Allocator, requests: Seq<(Seq<u8>, u8)>, count: nat) -> Allocator
    decreases count,
{
    if count == 0 {
        allocator
    } else if buffers_plan(allocator, requests, (count - 1) as nat) is Err {
        buffers_after(allocator, requests, (count - 1) as nat)
    } else {
        temp_after(
            buffers_after(allocator, requests, (count - 1) as nat),
            requests[count - 1].0.len(),
        )
    }
}

/// The addresses of the first `count` buffers and what the emulator must do
/// for them to exist, or the failure of the first buffer that cannot be made.
pub open spec fn buffers_plan(allocator: Allocator, requests: Seq<(Seq<u8>, u8)>, count: nat) -> Result<
    (Seq<u64>, Seq<EmuOpView>),
    VmErrorView,
>
    decreases count,
{
    if count == 0 {
        Ok((Seq::empty(), Seq::empty()))
    } else {
        match buffers_plan(allocator, requests, (count - 1) as nat) {
            Err(failure) => Err(failure),
            Ok((addresses, ops)) => match temp_plan(
                buffers_after(allocator, requests, (count - 1) as nat),
                requests[count - 1].0,
                requests[count - 1].1,
            ) {
                Err(failure) => Err(failure),
                Ok((address, more)) => Ok((addresses.push(address), ops + more)),
            },
        }
    }
}

proof fn lemma_buffers_fail(
    allocator: Allocator,
    requests: Seq<(Seq<u8>, u8)>,
    count: nat,
    longer: nat,
)
    requires
        count <= longer,
        buffers_plan(allocator, requests, count) is Err,
    ensures
        buffers_plan(allocator, requests, longer) == buffers_plan(allocator, requests, count),
        buffers_after(allocator, requests, longer) == buffers_after(allocator, requests, count),
    decreases longer,
{
    if count < longer {
        lemma_buffers_fail(allocator, requests, count, (longer - 1) as nat);
    }
}

/// Makes guest buffers one after the other.
pub fn plan_buffers(allocator: &mut Allocator, requests: &Vec<BufferRequest>) -> (r: Result<
    (Vec<u64>, Vec<EmuOp>),
    VmError,
>)
    requires
        old(allocator).wf(),
    ensures
        final(allocator).wf(),
        *final(allocator) == buffers_after(
            *old(allocator),
            request_views(requests@),
            requests@.len(),
        ),
        match buffers_plan(*old(allocator), request_views(requests@), requests@.len()) {
            Ok((addresses, ops)) => (r matches Ok(made) && made.0@ == addresses && ops_view(
                made.1@,
            ) == ops),
            Err(failure) => (r matches Err(e) && e@ == failure),
        },
{
    let ghost first = *allocator;
    let ghost views = request_views(requests@);
    let mut addresses: Vec<u64> = Vec::new();
    let mut ops: Vec<EmuOp> = Vec::new();
    let mut i: usize = 0;
    proof {
        lemma_ops_view_empty();
    }
    while i < requests.len()
        invariant
            i <= requests@.len(),
            allocator.wf(),
            first == *old(allocator),
            views == request_views(requests@),
            *allocator == buffers_after(first, views, i as nat),
            buffers_plan(first, views, i as nat) == Ok::<(Seq<u64>, Seq<EmuOpView>), VmErrorView>(
                (addresses@, ops_view(ops@)),
            ),
        decreases requests.len() - i,
    {
        let request = &requests[i];
        assert(views[i as int] == request@);
        match alloc_temp_bytes(allocator, request.payload.as_slice(), request.fill) {
            Ok(buffer) => {
                addresses.push(buffer.address);
                append_ops(&mut ops, buffer.ops);
            },
            Err(e) => {
                proof {
                    lemma_buffers_fail(first, views, (i + 1) as nat, requests@.len());
                }
                return Err(e);
            },
        }
        i = i + 1;
    }
    Ok((addresses, ops))
}

/// A call of a guest function: the function's name for reports, and what the
/// emulator must do, in order. When the last request is done, X0 holds the
/// function's status.
#[derive(Debug)]
pub struct AdiCall {
    pub name: &'static str,
    pub ops: Vec<EmuOp>,
}

/// Where the guest leaves a buffer it hands out: the address of the cell that
/// gets the buffer's address (eight bytes), and of the cell that gets its
/// length (four bytes).
#[derive(Debug, Clone, Copy, PartialEq, Eq, Structural)]
pub struct OutBuffer {
    pub pointer: u64,
    pub length: u64,
}

/// The call that starts a provisioning, and where its results will be.
#[derive(Debug)]
pub struct ProvisioningStartCall {
    pub call: AdiCall,
    pub cpim: OutBuffer,
    /// Address of the cell that gets the session number (four bytes).
    pub session: u64,
}

/// The call that asks for a one-time password, and where its results will be.
#[derive(Debug)]
pub struct OtpCall {
    pub call: AdiCall,
    pub otp: OutBuffer,
    pub machine_id: OutBuffer,
}

/// A call that completes the start of the service.
#[derive(Debug)]
pub enum SetupCall {
    LoadLibraryWithPath(String),
    SetProvisioningPath(String),
    SetIdentifier(String),
}

pub enum SetupCallView {
    LoadLibraryWithPath(Seq<char>),
    SetProvisioningPath(Seq<char>),
    SetIdentifier(Seq<char>),
}

impl View for SetupCall {
    type V = SetupCallView;

    open spec fn view(&self) -> SetupCallView {
        match self {
            SetupCall::LoadLibraryWithPath(path) => SetupCallView::LoadLibraryWithPath(path@),
            SetupCall::SetProvisioningPath(path) => SetupCallView::SetProvisioningPath(path@),
            SetupCall::SetIdentifier(identifier) => SetupCallView::SetIdentifier(identifier@),
        }
    }
}

pub open spec fn setup_call_views(calls: Seq<SetupCall>) -> Seq<SetupCallView> {
    calls.map_values(|c: SetupCall| c@)
}

/// The calls that complete the start of the service, in order: the library
/// path always, then the provisioning path and the identifier where they are
/// given.
pub open spec fn setup_calls(
    library_path: Seq<char>,
    provisioning_path: Option<Seq<char>>,
    identifier: Option<Seq<char>>,
) -> Seq<SetupCallView> {
    seq![SetupCallView::LoadLibraryWithPath(library_path)] + (match provisioning_path {
        Some(path) => seq![SetupCallView::SetProvisioningPath(path)],
        None => Seq::empty(),
    }) + (match identifier {
        Some(identifier) => seq![SetupCallView::SetIdentifier(identifier)],
        None => Seq::empty(),
    })
}

/// A started service: the service, what the emulator must do before anything
/// else, and the guest calls to make after that.
#[derive(Debug)]
pub struct AdiStart {
    pub adi: Adi,
    pub ops: Vec<EmuOp>,
    pub calls: Vec<SetupCall>,
}

/// The device identification service of the guest libraries: a machine with
/// the libraries loaded, and the addresses of the guest functions that the
/// service consists of.
#[derive(Debug)]
pub struct Adi {
    pub core: EmuCore,
    pub p_load_library_with_path: u64,
    pub p_set_android_id: u64,
    pub p_set_provisioning_path: u64,
    pub p_get_login_code: u64,
    pub p_provisioning_start: u64,
    pub p_provisioning_end: u64,
    pub p_otp_request: u64,
}

/// The file name of the library that holds the service.
pub open spec fn service_library() -> Seq<char> {
    "libstoreservicescore.so"@
}

/// The names under which the library exports the functions of the service, in
/// the order of `Adi`'s fields.
pub open spec fn entry_names() -> Seq<Seq<char>> {
    seq![
        "kq56gsgHG6"@,
        "Sph98paBcz"@,
        "nf92ngaK92"@,
        "aslgmuibau"@,
        "rsegvyrt87"@,
        "uv5t6nhkui"@,
        "qi864985u0"@,
    ]
}

/// The first `count` entry points in a symbol table, or the failure to find
/// the first of them that the table lacks.
pub open spec fn entry_points(
    symbols: Seq<crate::runtime::SymbolEntryView>,
    count: nat,
) -> Result<Seq<u64>, VmErrorView>
    decreases count,
{
    if count == 0 {
        Ok(Seq::empty())
    } else {
        match entry_points(symbols, (count - 1) as nat) {
            Err(failure) => Err(failure),
            Ok(found) => match symbol_address(symbols, entry_names()[count - 1]) {
                Some(address) => Ok(found.push(address)),
                None => Err(
                    VmErrorView::SymbolNotFound {
                        library: service_library(),
                        symbol: entry_names()[count - 1],
                    },
                ),
            },
        }
    }
}

/// What starting the service comes to: the addresses of its seven functions
/// and what the emulator must do, or why it cannot start. The service library
/// is the first image of a fresh machine, so it lies at the start of the
/// library region with ordinal 0.
pub open spec fn start_plan(storeservicescore: Seq<u8>) -> Result<
    (Seq<u64>, Seq<EmuOpView>),
    VmErrorView,
> {
    match parsed_elf(storeservicescore) {
        None => Err(VmErrorView::Elf),
        Some(image) => match image_plan(
            LIB_ALLOC_BASE,
            image,
            storeservicescore,
            service_library(),
            0,
        ) {
            Err(failure) => Err(failure),
            Ok(ops) => match entry_points(resolved_symbols(image.symbols, LIB_ALLOC_BASE, 0), 7) {
                Err(failure) => Err(failure),
                Ok(entries) => Ok((entries, machine_setup() + ops)),
            },
        },
    }
}

/// What a guest call asks of the emulator: its buffers, made one after the
/// other, and then the call itself with the arguments that `arguments` makes
/// of the buffers' addresses.
pub open spec fn guest_call_plan(
    allocator: Allocator,
    requests: Seq<(Seq<u8>, u8)>,
    target: u64,
    arguments: spec_fn(Seq<u64>) -> Seq<u64>,
) -> Result<(Seq<u64>, Seq<EmuOpView>), VmErrorView> {
    match buffers_plan(allocator, requests, requests.len()) {
        Err(failure) => Err(failure),
        Ok((addresses, ops)) => Ok((addresses, ops + call_plan(target, arguments(addresses)))),
    }
}

/// What a guest call with one text as its argument asks of the emulator: a
/// buffer with the text as a C string, and the call with the buffer's address.
pub open spec fn text_call_plan(allocator: Allocator, text: Seq<char>, target: u64) -> Result<
    (Seq<u64>, Seq<EmuOpView>),
    VmErrorView,
> {
    guest_call_plan(
        allocator,
        seq![(c_string_bytes(text), 0xCCu8)],
        target,
        |a: Seq<u64>| seq![a[0]],
    )
}

/// What a guest call with a run of bytes as its argument asks of the emulator:
/// a buffer with the bytes, and the call with the buffer's address and the
/// number of the bytes.
pub open spec fn bytes_call_plan(allocator: Allocator, bytes: Seq<u8>, target: u64) -> Result<
    (Seq<u64>, Seq<EmuOpView>),
    VmErrorView,
> {
    guest_call_plan(
        allocator,
        seq![(bytes, 0xCCu8)],
        target,
        |a: Seq<u64>| seq![a[0], bytes.len() as u64],
    )
}

/// Whether a planned call is what a plan says, where there is a call.
pub open spec fn some_call_matches(
    r: Result<Option<AdiCall>, VmError>,
    name: Seq<char>,
    plan: Result<(Seq<u64>, Seq<EmuOpView>), VmErrorView>,
) -> bool {
    match plan {
        Ok((addresses, ops)) => (r matches Ok(Some(call)) && call.name@ == name && ops_view(
            call.ops@,
        ) == ops),
        Err(failure) => (r matches Err(e) && e@ == failure),
    }
}

/// What planning one of the calls that complete the start returns, and how it
/// leaves the temp allocator.
pub open spec fn setup_planned(
    before: Adi,
    after: Adi,
    call: SetupCallView,
    r: Result<Option<AdiCall>, VmError>,
) -> bool {
    match call {
        SetupCallView::LoadLibraryWithPath(path) => {
            &&& after.allocator() == buffers_after(
                before.allocator(),
                seq![(c_string_bytes(path), 0xCCu8)],
                1,
            )
            &&& some_call_matches(
                r,
                "ADILoadLibraryWithPath"@,
                text_call_plan(before.allocator(), path, before.p_load_library_with_path),
            )
        },
        SetupCallView::SetProvisioningPath(path) => {
            &&& after.allocator() == buffers_after(
                before.allocator(),
                seq![(c_string_bytes(path), 0xCCu8)],
                1,
            )
            &&& some_call_matches(
                r,
                "ADISetProvisioningPath"@,
                text_call_plan(before.allocator(), path, before.p_set_provisioning_path),
            )
        },
        SetupCallView::SetIdentifier(identifier) => if identifier.len() == 0 {
            r matches Ok(None) && after == before
        } else {
            &&& after.allocator() == buffers_after(
                before.allocator(),
                seq![(vstd::utf8::encode_utf8(identifier), 0xCCu8)],
                1,
            )
            &&& some_call_matches(
                r,
                "ADISetAndroidID"@,
                bytes_call_plan(
                    before.allocator(),
                    vstd::utf8::encode_utf8(identifier),
                    before.p_set_android_id,
                ),
            )
        },
    }
}

/// Whether a planned call is what a plan says.
pub open spec fn call_matches(
    r: Result<AdiCall, VmError>,
    name: Seq<char>,
    plan: Result<(Seq<u64>, Seq<EmuOpView>), VmErrorView>,
) -> bool {
    match plan {
        Ok((addresses, ops)) => (r matches Ok(call) && call.name@ == name && ops_view(call.ops@)
            == ops),
        Err(failure) => (r matches Err(e) && e@ == failure),
    }
}

impl Adi {
    pub open spec fn wf(&self) -> bool {
        self.core.wf()
    }

    /// The temp allocator, which every guest call takes its buffers from.
    pub open spec fn allocator(&self) -> Allocator {
        self.core.state.temp_allocator
    }

    /// Whether `other` is this service with, at most, another temp allocator.
    pub open spec fn same_but_buffers(&self, other: &Adi) -> bool {
        &&& other.p_load_library_with_path == self.p_load_library_with_path
        &&& other.p_set_android_id == self.p_set_android_id
        &&& other.p_set_provisioning_path == self.p_set_provisioning_path
        &&& other.p_get_login_code == self.p_get_login_code
        &&& other.p_provisioning_start == self.p_provisioning_start
        &&& other.p_provisioning_end == self.p_provisioning_end
        &&& other.p_otp_request == self.p_otp_request
        &&& other.core.pending_error == self.core.pending_error
        &&& other.core.state.library_allocator == self.core.state.library_allocator
        &&& other.core.state.malloc_allocator == self.core.state.malloc_allocator
        &&& other.core.state.errno_address == self.core.state.errno_address
        &&& other.core.state.library_blobs == self.core.state.library_blobs
        &&& other.core.state.loaded_libraries == self.core.state.loaded_libraries
        &&& other.core.state.open_files == self.core.state.open_files
        &&& other.core.state.library_root == self.core.state.library_root
    }

    /// The addresses of the seven functions of the service, in the order of
    /// the fields.
    pub open spec fn entries(&self) -> Seq<u64> {
        seq![
            self.p_load_library_with_path,
            self.p_set_android_id,
            self.p_set_provisioning_path,
            self.p_get_login_code,
            self.p_provisioning_start,
            self.p_provisioning_end,
            self.p_otp_request,
        ]
    }

    /// Starts the service on a fresh machine: registers the two libraries,
    /// loads the service library and finds its seven functions. What is left
    /// to do is in the result: the emulator requests that set the machine up
    /// and load the library, and after them the guest calls that hand over the
    /// paths and the identifier.
    pub fn new(init: AdiInit) -> (r: Result<AdiStart, VmError>)
        ensures
            match start_plan(init.storeservicescore@) {
                Err(failure) => (r matches Err(e) && e@ == failure),
                Ok((entries, ops)) => {
                    &&& r matches Ok(start)
                    &&& start.adi.wf()
                    &&& start.adi.entries() == entries
                    &&& ops_view(start.ops@) == ops
                    &&& setup_call_views(start.calls@) == setup_calls(
                        init.library_path@,
                        match init.provisioning_path {
                            Some(path) => Some(path@),
                            None => None,
                        },
                        match init.identifier {
                            Some(identifier) => Some(identifier@),
                            None => None,
                        },
                    )
                    &&& start.adi.core.state.libraries().len() == 1
                    &&& start.adi.core.state.libraries()[0].name == service_library()
                    &&& start.adi.core.state.blob("libCoreADI.so"@) == Some(init.coreadi@)
                    &&& start.adi.core.state.blob(service_library()) == Some(
                        init.storeservicescore@,
                    )
                    &&& start.adi.core.pending_error is None
                    &&& start.adi.core.state.errno_address is None
                    &&& start.adi.core.state.open_files@.len() == 0
                    &&& (normalized_root(init.library_path@).len() != 0 ==> (
                    start.adi.core.state.library_root matches Some(root) && root@
                        == normalized_root(init.library_path@)))
                    &&& (normalized_root(init.library_path@).len() == 0
                        ==> start.adi.core.state.library_root is None)
                },
            },
    {
        let AdiInit { storeservicescore, coreadi, library_path, provisioning_path, identifier } =
            init;
        let (mut core, mut ops) = EmuCore::new_arm64();
        core.set_library_root(library_path.as_str());
        let ghost service = storeservicescore@;
        core.register_library_blob("libstoreservicescore.so", storeservicescore);
        proof {
            reveal_strlit("libstoreservicescore.so");
            reveal_strlit("libCoreADI.so");
            assert("libstoreservicescore.so"@.len() != "libCoreADI.so"@.len());
        }
        core.register_library_blob("libCoreADI.so", coreadi);
        proof {
            lemma_index_of_name_missing(
                library_names(core.state.libraries()),
                "libstoreservicescore.so"@,
            );
            assert(core.state.library_allocator.next_address() == LIB_ALLOC_BASE);
            assert(core.state.loaded_libraries.len() == 0);
            reveal_with_fuel(entry_points, 8);
        }
        let ghost fresh = core.state;
        let loaded = core.load_library("libstoreservicescore.so")?;
        append_ops(&mut ops, loaded.ops);
        let index = loaded.index;
        proof {
            let image = parsed_elf(service)->Some_0;
            let record = crate::runtime::LoadedLibraryView {
                name: service_library(),
                symbols: resolved_symbols(image.symbols, LIB_ALLOC_BASE, 0),
            };
            assert(core.state.libraries() =~= seq![record]);
        }
        let p_load_library_with_path = core.resolve_symbol_by_name(index, "kq56gsgHG6")?;
        let p_set_android_id = core.resolve_symbol_by_name(index, "Sph98paBcz")?;
        let p_set_provisioning_path = core.resolve_symbol_by_name(index, "nf92ngaK92")?;
        let p_get_login_code = core.resolve_symbol_by_name(index, "aslgmuibau")?;
        let p_provisioning_start = core.resolve_symbol_by_name(index, "rsegvyrt87")?;
        let p_provisioning_end = core.resolve_symbol_by_name(index, "uv5t6nhkui")?;
        let p_otp_request = core.resolve_symbol_by_name(index, "qi864985u0")?;
        let adi = Self {
            core,
            p_load_library_with_path,
            p_set_android_id,
            p_set_provisioning_path,
            p_get_login_code,
            p_provisioning_start,
            p_provisioning_end,
            p_otp_request,
        };
        let mut calls: Vec<SetupCall> = Vec::new();
        calls.push(SetupCall::LoadLibraryWithPath(library_path));
        if let Some(path) = provisioning_path {
            calls.push(SetupCall::SetProvisioningPath(path));
        }
        if let Some(identifier) = identifier {
            calls.push(SetupCall::SetIdentifier(identifier));
        }
        assert(setup_call_views(calls@) =~= setup_calls(
            init.library_path@,
            match init.provisioning_path {
                Some(path) => Some(path@),
                None => None,
            },
            match init.identifier {
                Some(identifier) => Some(identifier@),
                None => None,
            },
        ));
        assert(adi.entries() =~= entry_points(
            resolved_symbols(parsed_elf(service)->Some_0.symbols, LIB_ALLOC_BASE, 0),
            7,
        )->Ok_0);
        Ok(AdiStart { adi, ops, calls })
    }

    /// Plans the call that hands the device identifier to the guest. An
    /// empty identifier is not handed over: there is no call then.
    pub fn set_identifier(&mut self, identifier: &str) -> (r: Result<Option<AdiCall>, VmError>)
        requires
            old(self).wf(),
        ensures
            final(self).wf(),
            old(self).same_but_buffers(final(self)),
            setup_planned(
                *old(self),
                *final(self),
                SetupCallView::SetIdentifier(identifier@),
                r,
            ),
    {
        if identifier.is_empty() {
            return Ok(None);
        }
        let bytes = identifier.as_bytes();
        let mut requests: Vec<BufferRequest> = Vec::new();
        requests.push(BufferRequest { payload: slice_to_vec(bytes), fill: 0xCC });
        assert(request_views(requests@) =~= seq![(identifier.spec_bytes(), 0xCCu8)]);
        let (addresses, ops) = self.buffers(&requests)?;
        let mut arguments: Vec<u64> = Vec::new();
        arguments.push(addresses[0]);
        arguments.push(bytes.len() as u64);
        assert(arguments@ =~= seq![addresses@[0], identifier.spec_bytes().len() as u64]);
        let call = self.call("ADISetAndroidID", ops, self.p_set_android_id, &arguments)?;
        Ok(Some(call))
    }

    /// Plans the call that tells the guest where its provisioning data lies.
    pub fn set_provisioning_path(&mut self, path: &str) -> (r: Result<AdiCall, VmError>)
        requires
            old(self).wf(),
        ensures
            final(self).wf(),
            old(self).same_but_buffers(final(self)),
            final(self).allocator() == buffers_after(
                old(self).allocator(),
                seq![(c_string_bytes(path@), 0xCCu8)],
                1,
            ),
            call_matches(
                r,
                "ADISetProvisioningPath"@,
                text_call_plan(old(self).allocator(), path@, old(self).p_set_provisioning_path),
            ),
    {
        let mut requests: Vec<BufferRequest> = Vec::new();
        requests.push(BufferRequest { payload: to_c_string(path), fill: 0xCC });
        assert(request_views(requests@) =~= seq![(c_string_bytes(path@), 0xCCu8)]);
        let (addresses, ops) = self.buffers(&requests)?;
        let mut arguments: Vec<u64> = Vec::new();
        arguments.push(addresses[0]);
        assert(arguments@ =~= seq![addresses@[0]]);
        self.call("ADISetProvisioningPath", ops, self.p_set_provisioning_path, &arguments)
    }

    /// Plans the call that tells the guest where its libraries lie.
    pub fn load_library_with_path(&mut self, path: &str) -> (r: Result<AdiCall, VmError>)
        requires
            old(self).wf(),
        ensures
            final(self).wf(),
            old(self).same_but_buffers(final(self)),
            final(self).allocator() == buffers_after(
                old(self).allocator(),
                seq![(c_string_bytes(path@), 0xCCu8)],
                1,
            ),
            call_matches(
                r,
                "ADILoadLibraryWithPath"@,
                text_call_plan(old(self).allocator(), path@, old(self).p_load_library_with_path),
            ),
    {
        let mut requests: Vec<BufferRequest> = Vec::new();
        requests.push(BufferRequest { payload: to_c_string(path), fill: 0xCC });
        assert(request_views(requests@) =~= seq![(c_string_bytes(path@), 0xCCu8)]);
        let (addresses, ops) = self.buffers(&requests)?;
        let mut arguments: Vec<u64> = Vec::new();
        arguments.push(addresses[0]);
        assert(arguments@ =~= seq![addresses@[0]]);
        self.call("ADILoadLibraryWithPath", ops, self.p_load_library_with_path, &arguments)
    }

    /// Plans one of the calls that complete the start of the service.
    pub fn setup(&mut self, call: &SetupCall) -> (r: Result<Option<AdiCall>, VmError>)
        requires
            old(self).wf(),
        ensures
            final(self).wf(),
            old(self).same_but_buffers(final(self)),
            setup_planned(*old(self), *final(self), call@, r),
    {
        match call {
            SetupCall::LoadLibraryWithPath(path) => {
                let planned = self.load_library_with_path(path.as_str())?;
                Ok(Some(planned))
            },
            SetupCall::SetProvisioningPath(path) => {
                let planned = self.set_provisioning_path(path.as_str())?;
                Ok(Some(planned))
            },
            SetupCall::SetIdentifier(identifier) => self.set_identifier(identifier.as_str()),
        }
    }

    /// Plans the call that starts a provisioning for the account `dsid` with
    /// the server's provisioning data. Three scratch buffers take the call's
    /// results.
    pub fn start_provisioning(&mut self, dsid: u64, spim: &[u8]) -> (r: Result<
        ProvisioningStartCall,
        VmError,
    >)
        requires
            old(self).wf(),
        ensures
            final(self).wf(),
            old(self).same_but_buffers(final(self)),
            final(self).allocator() == buffers_after(
                old(self).allocator(),
                start_provisioning_requests(spim@),
                4,
            ),
            match guest_call_plan(
                old(self).allocator(),
                start_provisioning_requests(spim@),
                old(self).p_provisioning_start,
                |a: Seq<u64>| seq![dsid, a[3], spim@.len() as u64, a[0], a[1], a[2]],
            ) {
                Ok((addresses, ops)) => {
                    &&& r matches Ok(planned)
                    &&& planned.call.name@ == "ADIProvisioningStart"@
                    &&& ops_view(planned.call.ops@) == ops
                    &&& planned.cpim == (OutBuffer { pointer: addresses[0], length: addresses[1] })
                    &&& planned.session == addresses[2]
                },
                Err(failure) => (r matches Err(e) && e@ == failure),
            },
    {
        let mut requests: Vec<BufferRequest> = Vec::new();
        requests.push(scratch(8));
        requests.push(scratch(4));
        requests.push(scratch(4));
        requests.push(BufferRequest { payload: slice_to_vec(spim), fill: 0xCC });
        assert(request_views(requests@) =~= start_provisioning_requests(spim@));
        let (addresses, ops) = self.buffers(&requests)?;
        let mut arguments: Vec<u64> = Vec::new();
        arguments.push(dsid);
        arguments.push(addresses[3]);
        arguments.push(spim.len() as u64);
        arguments.push(addresses[0]);
        arguments.push(addresses[1]);
        arguments.push(addresses[2]);
        assert(arguments@ =~= seq![
            dsid,
            addresses@[3],
            spim@.len() as u64,
            addresses@[0],
            addresses@[1],
            addresses@[2],
        ]);
        let call = self.call("ADIProvisioningStart", ops, self.p_provisioning_start, &arguments)?;
        Ok(
            ProvisioningStartCall {
                call,
                cpim: OutBuffer { pointer: addresses[0], length: addresses[1] },
                session: addresses[2],
            },
        )
    }

    /// Plans the call that asks whether the machine is provisioned for the
    /// account `dsid`; `login_status` reads the answer.
    pub fn is_machine_provisioned(&self, dsid: u64) -> (r: Result<AdiCall, VmError>)
        ensures
            (r matches Ok(call) && call.name@ == "ADIGetLoginCode"@ && ops_view(call.ops@)
                == call_plan(self.p_get_login_code, seq![dsid])),
    {
        let mut arguments: Vec<u64> = Vec::new();
        arguments.push(dsid);
        assert(arguments@ =~= seq![dsid]);
        proof {
            lemma_ops_view_empty();
        }
        let call = self.call("ADIGetLoginCode", Vec::new(), self.p_get_login_code, &arguments)?;
        assert(ops_view(call.ops@) =~= call_plan(self.p_get_login_code, seq![dsid]));
        Ok(call)
    }

    /// Reads the status that the guest returned to the question whether the
    /// machine is provisioned: 0 says yes, -45061 says no, and anything else is
    /// the call's failure.
    pub fn login_status(value: u64) -> (r: Result<bool, VmError>)
        ensures
            return_code(value) == 0 ==> r matches Ok(true),
            return_code(value) == NOT_PROVISIONED ==> r matches Ok(false),
            return_code(value) != 0 && return_code(value) != NOT_PROVISIONED ==> (
            r matches Err(e) && e@ == (VmErrorView::AdiCallFailed {
                name: "ADIGetLoginCode"@,
                code: return_code(value),
            })),
    {
        let code =
            #[verifier::truncate]
            ((
            #[verifier::truncate]
            (value as u32)) as i32);
        if code == 0 {
            return Ok(true);
        }
        if code == NOT_PROVISIONED {
            return Ok(false);
        }
        Err(VmError::AdiCallFailed { name: "ADIGetLoginCode", code })
    }

    /// Plans the call that ends a provisioning with the server's token and
    /// trust key.
    pub fn end_provisioning(&mut self, session: u32, ptm: &[u8], tk: &[u8]) -> (r: Result<
        AdiCall,
        VmError,
    >)
        requires
            old(self).wf(),
        ensures
            final(self).wf(),
            old(self).same_but_buffers(final(self)),
            final(self).allocator() == buffers_after(
                old(self).allocator(),
                seq![(ptm@, 0xCCu8), (tk@, 0xCCu8)],
                2,
            ),
            call_matches(
                r,
                "ADIProvisioningEnd"@,
                guest_call_plan(
                    old(self).allocator(),
                    seq![(ptm@, 0xCCu8), (tk@, 0xCCu8)],
                    old(self).p_provisioning_end,
                    |a: Seq<u64>|
                        seq![session as u64, a[0], ptm@.len() as u64, a[1], tk@.len() as u64],
                ),
            ),
    {
        let mut requests: Vec<BufferRequest> = Vec::new();
        requests.push(BufferRequest { payload: slice_to_vec(ptm), fill: 0xCC });
        requests.push(BufferRequest { payload: slice_to_vec(tk), fill: 0xCC });
        assert(request_views(requests@) =~= seq![(ptm@, 0xCCu8), (tk@, 0xCCu8)]);
        let (addresses, ops) = self.buffers(&requests)?;
        let mut arguments: Vec<u64> = Vec::new();
        arguments.push(session as u64);
        arguments.push(addresses[0]);
        arguments.push(ptm.len() as u64);
        arguments.push(addresses[1]);
        arguments.push(tk.len() as u64);
        assert(arguments@ =~= seq![
            session as u64,
            addresses@[0],
            ptm@.len() as u64,
            addresses@[1],
            tk@.len() as u64,
        ]);
        self.call("ADIProvisioningEnd", ops, self.p_provisioning_end, &arguments)
    }

    /// Plans the call that asks for a one-time password for the account
    /// `dsid`. Four scratch buffers take the call's results.
    pub fn request_otp(&mut self, dsid: u64) -> (r: Result<OtpCall, VmError>)
        requires
            old(self).wf(),
        ensures
            final(self).wf(),
            old(self).same_but_buffers(final(self)),
            final(self).allocator() == buffers_after(old(self).allocator(), otp_requests(), 4),
            match guest_call_plan(
                old(self).allocator(),
                otp_requests(),
                old(self).p_otp_request,
                |a: Seq<u64>| seq![dsid, a[2], a[3], a[0], a[1]],
            ) {
                Ok((addresses, ops)) => {
                    &&& r matches Ok(planned)
                    &&& planned.call.name@ == "ADIOTPRequest"@
                    &&& ops_view(planned.call.ops@) == ops
                    &&& planned.otp == (OutBuffer { pointer: addresses[0], length: addresses[1] })
                    &&& planned.machine_id == (OutBuffer {
                        pointer: addresses[2],
                        length: addresses[3],
                    })
                },
                Err(failure) => (r matches Err(e) && e@ == failure),
            },
    {
        let mut requests: Vec<BufferRequest> = Vec::new();
        requests.push(scratch(8));
        requests.push(scratch(4));
        requests.push(scratch(8));
        requests.push(scratch(4));
        assert(request_views(requests@) =~= otp_requests());
        let (addresses, ops) = self.buffers(&requests)?;
        let mut arguments: Vec<u64> = Vec::new();
        arguments.push(dsid);
        arguments.push(addresses[2]);
        arguments.push(addresses[3]);
        arguments.push(addresses[0]);
        arguments.push(addresses[1]);
        assert(arguments@ =~= seq![
            dsid,
            addresses@[2],
            addresses@[3],
            addresses@[0],
            addresses@[1],
        ]);
        let call = self.call("ADIOTPRequest", ops, self.p_otp_request, &arguments)?;
        Ok(
            OtpCall {
                call,
                otp: OutBuffer { pointer: addresses[0], length: addresses[1] },
                machine_id: OutBuffer { pointer: addresses[2], length: addresses[3] },
            },
        )
    }

    /// Plans the buffers of a guest call.
    fn buffers(&mut self, requests: &Vec<BufferRequest>) -> (r: Result<
        (Vec<u64>, Vec<EmuOp>),
        VmError,
    >)
        requires
            old(self).wf(),
        ensures
            final(self).wf(),
            old(self).same_but_buffers(final(self)),
            final(self).allocator() == buffers_after(
                old(self).allocator(),
                request_views(requests@),
                requests@.len(),
            ),
            match buffers_plan(old(self).allocator(), request_views(requests@), requests@.len()) {
                Ok((addresses, ops)) => (r matches Ok(made) && made.0@ == addresses && ops_view(
                    made.1@,
                ) == ops && addresses.len() == requests@.len()),
                Err(failure) => (r matches Err(e) && e@ == failure),
            },
    {
        proof {
            lemma_buffers_count(
                self.allocator(),
                request_views(requests@),
                requests@.len(),
            );
        }
        plan_buffers(&mut self.core.state.temp_allocator, requests)
    }

    /// Appends the call itself to the buffers of a guest call.
    fn call(&self, name: &'static str, ops: Vec<EmuOp>, target: u64, arguments: &Vec<u64>) -> (r:
        Result<AdiCall, VmError>)
        requires
            arguments@.len() <= MAX_CDECL_ARGS,
        ensures
            (r matches Ok(call) && call.name == name && ops_view(call.ops@) == ops_view(ops@)
                + call_plan(target, arguments@)),
    {
        let mut ops = ops;
        let call = self.core.invoke_cdecl(target, arguments.as_slice())?;
        append_ops(&mut ops, call);
        Ok(AdiCall { name, ops })
    }
}

proof fn lemma_buffers_count(allocator: Allocator, requests: Seq<(Seq<u8>, u8)>, count: nat)
    ensures
        buffers_plan(allocator, requests, count) matches Ok((addresses, ops)) ==> addresses.len()
            == count,
    decreases count,
{
    if count > 0 {
        lemma_buffers_count(allocator, requests, (count - 1) as nat);
    }
}

/// The buffers of the call that starts a provisioning: scratch for the
/// address of the client's provisioning data, for its length and for the
/// session number, and the server's provisioning data.
pub open spec fn start_provisioning_requests(spim: Seq<u8>) -> Seq<(Seq<u8>, u8)> {
    seq![
        (scratch_bytes(8), 0xAAu8),
        (scratch_bytes(4), 0xAAu8),
        (scratch_bytes(4), 0xAAu8),
        (spim, 0xCCu8),
    ]
}

/// The buffers of the call that asks for a one-time password: scratch for the
/// address and the length of the password, and for those of the machine
/// identifier.
pub open spec fn otp_requests() -> Seq<(Seq<u8>, u8)> {
    seq![
        (scratch_bytes(8), 0xAAu8),
        (scratch_bytes(4), 0xAAu8),
        (scratch_bytes(8), 0xAAu8),
        (scratch_bytes(4), 0xAAu8),
    ]
}

/// A scratch buffer of `length` bytes for the guest to write to.
fn scratch(length: usize) -> (r: BufferRequest)
    ensures
        r@ == (scratch_bytes(length), 0xAAu8),
{
    let count = if length == 0 {
        1
    } else {
        length
    };
    let payload = padded_bytes(0, &[], count, 0xAA);
    assert(payload@ =~= scratch_bytes(length));
    BufferRequest { payload, fill: 0xAA }
}

impl AdiCall {
    /// Takes the status that the guest function returned in X0: zero is
    /// success, anything else the function's failure.
    pub fn finish(&self, value: u64) -> (r: Result<(), VmError>)
        ensures
            return_code(value) == 0 ==> r is Ok,
            return_code(value) != 0 ==> (r matches Err(e) && e@ == (VmErrorView::AdiCallFailed {
                name: self.name@,
                code: return_code(value),
            })),
    {
        ensure_zero_return(self.name, value)
    }
}

impl OutBuffer {
    /// Where the guest left the buffer: its address and its length, from the
    /// bytes of the two cells.
    pub fn locate(pointer: [u8; 8], length: [u8; 4]) -> (r: (u64, usize))
        ensures
            r.0 == spec_u64_from_le_bytes(pointer@),
            r.1 == spec_u32_from_le_bytes(length@) as usize,
    {
        (EmuCore::read_u64(pointer), EmuCore::read_u32(length) as usize)
    }
}

} // verus!
