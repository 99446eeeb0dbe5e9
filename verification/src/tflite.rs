//! The facade and the native-handle wrappers, modeled as a state machine
//! over plain handle values.
//!
//! Foreign calls cannot be made from verified code, so every function here
//! is a decision: the unverified shell performs the native call and hands
//! its outcome in as a plain value (a handle, a status, fetched tensor
//! metadata), and the function says exactly what wrapper state and what
//! result follow from that outcome, for every outcome.
use vstd::prelude::*;

use crate::Error;
use crate::sys::tflite::{
    parsed_version, spec_core_bind_ok, spec_type_from_code, spec_version_compatible, TfLiteStatus,
    TfLiteType, TfLiteVt, CORE_SYMBOL_COUNT,
};
use crate::sys::xnnpack::{spec_probe_outcome, TfLiteXNNPackDelegateOptions, XnnPackVt};

verus! {

/// The engine applications hold: the bound core table and, when the
/// extension probe found it, the accelerator table.
#[derive(Debug, Clone)]
pub struct TfLite {
    pub vt: TfLiteVt,
    pub xnnpack_vt: Option<XnnPackVt>,
}

/// An owned native model handle together with the serialized model bytes
/// it was created from. The bytes stay owned here because the native
/// library may reference them without copying for the handle's lifetime.
#[derive(Debug, Clone)]
pub struct Model {
    /// The native model handle.
    pub model: u64,
    /// The serialized model buffer the handle was created from.
    pub data: Vec<u8>,
}

/// Which destructor family releases a delegate. Delegates created by the
/// accelerator extension must be released by the extension's destructor,
/// never by another table's.
#[derive(Debug, PartialEq, Eq, Structural, Clone, Copy)]
pub enum DelegateKind {
    XnnPack,
}

/// An owned native delegate handle and the destructor family that matches
/// how it was created.
#[derive(Debug, PartialEq, Eq, Structural, Clone, Copy)]
pub struct Delegate {
    /// The native delegate handle.
    pub delegate: u64,
    /// The destructor family that must release this handle.
    pub destructor: DelegateKind,
}

/// An owned native options handle, the thread count requested through it,
/// and the delegates added to it, in insertion order.
#[derive(Debug, Clone)]
pub struct InterpreterOptions {
    /// The native options handle.
    pub options: u64,
    /// The last thread count forwarded, if any was set.
    pub num_threads: Option<i32>,
    /// The delegates whose ownership was transferred in, in the order they
    /// were added; that order is the order they are consulted natively.
    pub delegates: Vec<Delegate>,
}

/// An owned native interpreter handle. It keeps its model and its delegate
/// collection alive for its whole lifetime, and tracks whether tensor
/// storage has been allocated.
#[derive(Debug, Clone)]
pub struct Interpreter {
    /// The native interpreter handle.
    pub interpreter: u64,
    /// Whether the last `allocate_tensors` succeeded.
    pub allocated: bool,
    /// How many input tensors the native interpreter reports.
    pub input_count: i32,
    /// How many output tensors the native interpreter reports.
    pub output_count: i32,
    /// The model this interpreter was created from, kept alive here.
    pub model: Model,
    /// The delegates consumed from the options, kept alive here.
    pub delegates: Vec<Delegate>,
}

/// Tensor metadata as the shell fetched it from the native accessors at
/// one moment: raw handle, raw element-type code, dimensions, byte size,
/// whether the native data pointer was non-null, and the tensor's name.
#[derive(Debug, Clone)]
pub struct TensorInfo {
    pub tensor: u64,
    pub type_code: i32,
    pub dims: Vec<i32>,
    pub byte_size: usize,
    pub data_present: bool,
    pub name: String,
}

/// A borrowed view of one tensor of an interpreter: decoded metadata plus
/// whether a byte view of the tensor's storage exists.
#[derive(Debug, Clone)]
pub struct Tensor {
    /// The native tensor handle.
    pub tensor: u64,
    /// The decoded element type.
    pub type_: TfLiteType,
    /// The dimension list.
    pub dims: Vec<i32>,
    /// The exact length of the byte view, when one exists.
    pub byte_size: usize,
    /// Whether the tensor's storage is materialized: false before a
    /// successful allocation or when the native data pointer is null.
    pub data_present: bool,
    /// The tensor's name.
    pub name: String,
}

/// The tensor view that follows from fetched metadata and the owning
/// interpreter's allocation state: data is never present before a
/// successful allocation.
pub open spec fn spec_tensor_from(info: TensorInfo, allocated: bool) -> Tensor {
    Tensor {
        tensor: info.tensor,
        type_: match spec_type_from_code(info.type_code as int) {
            Some(t) => t,
            None => TfLiteType::NoType,
        },
        dims: info.dims,
        byte_size: info.byte_size,
        data_present: info.data_present && allocated,
        name: info.name,
    }
}

/// A tensor fetched from an interpreter whose allocation has not succeeded
/// exposes no data, whatever the native accessors reported.
pub proof fn lemma_no_data_before_allocation(info: TensorInfo, allocated: bool)
    ensures
        !allocated ==> !spec_tensor_from(info, allocated).data_present,
{
}

/// Decodes fetched tensor metadata into a tensor view. An element-type
/// code outside the defined range decodes to `NoType`.
fn tensor_from(info: TensorInfo, allocated: bool) -> (r: Tensor)
    ensures
        r == spec_tensor_from(info, allocated),
{
    let type_ = match TfLiteType::from_code(info.type_code) {
        Some(t) => t,
        None => TfLiteType::NoType,
    };
    Tensor {
        tensor: info.tensor,
        type_,
        dims: info.dims,
        byte_size: info.byte_size,
        data_present: info.data_present && allocated,
        name: info.name,
    }
}

impl TfLite {
    /// Decides a whole load attempt from its resolution report.
    ///
    /// `opened` says whether the OS loader opened the shared library at
    /// all; `version_string` and `resolved` report the core table's symbol
    /// resolution as for `TfLiteVt::load`; the three `xnn` flags report the
    /// extension probe as for `XnnPackVt::load`. The load succeeds exactly
    /// when the library opened and the core table bound completely with a
    /// compatible version; extension absence is never a failure.
    pub fn load(
        opened: bool,
        version_string: Option<String>,
        resolved: &Vec<bool>,
        xnn_probe: bool,
        xnn_create: bool,
        xnn_delete: bool,
    ) -> (r: Result<TfLite, Error>)
        requires
            resolved@.len() == CORE_SYMBOL_COUNT,
            spec_probe_outcome(xnn_probe, xnn_create, xnn_delete) !is Inconsistent,
        ensures
            r is Ok <==> (opened && spec_core_bind_ok(version_string, resolved@)),
            (r matches Ok(t) ==> {
                &&& version_string matches Some(s) && t.vt.version_string@ == s@
                &&& parsed_version(t.vt.version_string@) == Some(
                    (t.vt.version.major, t.vt.version.minor, t.vt.version.patch, t.vt.version.pre),
                )
                &&& spec_version_compatible(t.vt.version)
                &&& (t.xnnpack_vt is Some <==> xnn_probe)
            }),
            r is Err ==> r == Err::<TfLite, Error>(Error::FailedToLoad),
    {
        if !opened {
            return Err(Error::FailedToLoad);
        }
        let vt = match TfLiteVt::load(version_string, resolved) {
            Ok(vt) => vt,
            Err(e) => {
                return Err(e);
            },
        };
        let xnnpack_vt = XnnPackVt::load(xnn_probe, xnn_create, xnn_delete);
        Ok(TfLite { vt, xnnpack_vt })
    }

    /// The library's self-reported version string, verbatim.
    pub fn version(&self) -> (r: &String)
        ensures
            r@ == self.vt.version_string@,
    {
        &self.vt.version_string
    }

    /// Whether the accelerator extension is available. The accelerator
    /// operations below must only be called after this answers true.
    pub fn xnnpack_available(&self) -> (r: bool)
        ensures
            r == (self.xnnpack_vt is Some),
    {
        self.xnnpack_vt.is_some()
    }

    /// Decides model creation. `native` is the handle the native model
    /// constructor returned, or `None` when it returned null. An empty
    /// buffer never yields a model; ownership of the bytes transfers into
    /// the returned `Model`.
    pub fn model_create(&self, data: Vec<u8>, native: Option<u64>) -> (r: Result<Model, Error>)
        ensures
            r is Ok <==> (data@.len() > 0 && native is Some),
            (r matches Ok(m) ==> {
                &&& m.data@ == data@
                &&& native matches Some(h) && m.model == h
            }),
            r is Err ==> r == Err::<Model, Error>(Error::Generic),
    {
        if data.len() == 0 {
            return Err(Error::Generic);
        }
        match native {
            Some(h) => Ok(Model { model: h, data }),
            None => Err(Error::Generic),
        }
    }

    /// Wraps a freshly created native options handle: empty delegate
    /// collection, no thread count set yet.
    pub fn interpreter_options_create(&self, native: u64) -> (r: InterpreterOptions)
        ensures
            r.options == native,
            r.num_threads is None,
            r.delegates@.len() == 0,
    {
        InterpreterOptions { options: native, num_threads: None, delegates: Vec::new() }
    }

    /// Decides interpreter creation. `native` is the created handle with
    /// the input and output tensor counts the native interpreter reports,
    /// or `None` when creation returned null. The model and the options'
    /// delegate collection move into the interpreter, which keeps both
    /// alive; a fresh interpreter has no tensor storage allocated.
    pub fn interpreter_create(
        &self,
        model: Model,
        options: InterpreterOptions,
        native: Option<(u64, i32, i32)>,
    ) -> (r: Result<Interpreter, Error>)
        ensures
            r is Ok <==> native is Some,
            (r matches Ok(it) ==> {
                &&& native matches Some(n)
                &&& it.interpreter == n.0
                &&& it.input_count == n.1
                &&& it.output_count == n.2
                &&& !it.allocated
                &&& it.model == model
                &&& it.delegates@ == options.delegates@
            }),
            r is Err ==> r == Err::<Interpreter, Error>(Error::Generic),
    {
        let InterpreterOptions { options: _, num_threads: _, delegates } = options;
        match native {
            Some((handle, input_count, output_count)) => Ok(
                Interpreter {
                    interpreter: handle,
                    allocated: false,
                    input_count,
                    output_count,
                    model,
                    delegates,
                },
            ),
            None => Err(Error::Generic),
        }
    }

    /// Passes the accelerator's default delegate options through. Calling
    /// this when the extension is absent is a programming-contract
    /// violation, excluded by the precondition; the caller must check
    /// `xnnpack_available` first.
    pub fn xnnpack_delegate_options_default(
        &self,
        native: TfLiteXNNPackDelegateOptions,
    ) -> (r: TfLiteXNNPackDelegateOptions)
        requires
            self.xnnpack_vt is Some,
        ensures
            r == native,
    {
        native
    }

    /// Wraps a native delegate handle the accelerator created, binding it
    /// to the accelerator's own destructor family. Same availability
    /// precondition as `xnnpack_delegate_options_default`.
    pub fn xnnpack_delegate_create(
        &self,
        options: &TfLiteXNNPackDelegateOptions,
        native: u64,
    ) -> (r: Delegate)
        requires
            self.xnnpack_vt is Some,
        ensures
            r.delegate == native,
            r.destructor is XnnPack,
    {
        let _ = options;
        Delegate { delegate: native, destructor: DelegateKind::XnnPack }
    }
}

impl InterpreterOptions {
    /// Records the thread count forwarded to the native options object.
    /// The value itself is not validated; its legal range is native-defined.
    pub fn set_num_threads(&mut self, num_threads: i32)
        ensures
            final(self).num_threads == Some(num_threads),
            final(self).options == old(self).options,
            final(self).delegates@ == old(self).delegates@,
    {
        self.num_threads = Some(num_threads);
    }

    /// Transfers ownership of a delegate into this options object. The
    /// delegate is appended, preserving insertion order, which is the
    /// order delegates are consulted natively.
    pub fn add_delegate(&mut self, delegate: Delegate)
        ensures
            final(self).delegates@ == old(self).delegates@.push(delegate),
            final(self).options == old(self).options,
            final(self).num_threads == old(self).num_threads,
    {
        self.delegates.push(delegate);
    }
}

impl Interpreter {
    /// How many input tensors the interpreter has.
    pub fn input_tensor_count(&self) -> (r: i32)
        ensures
            r == self.input_count,
    {
        self.input_count
    }

    /// Whether tensor storage is allocated. `invoke` and tensor data
    /// access are only meaningful after this answers true.
    pub fn allocated(&self) -> (r: bool)
        ensures
            r == self.allocated,
    {
        self.allocated
    }

    /// Decides the input-tensor view for an index. An index at or past the
    /// count is absent, never a fault, whatever the shell fetched; in
    /// range, the view follows the fetched metadata, and exposes data only
    /// if allocation has succeeded.
    pub fn input_tensor(&self, index: i32, fetched: Option<TensorInfo>) -> (r: Option<Tensor>)
        ensures
            !(0 <= index < self.input_count) ==> r is None,
            (0 <= index < self.input_count) ==> match (r, fetched) {
                (Some(t), Some(info)) => t == spec_tensor_from(info, self.allocated),
                (None, None) => true,
                _ => false,
            },
            (r matches Some(t) ==> (t.data_present ==> self.allocated)),
    {
        if index < 0 || index >= self.input_count {
            return None;
        }
        match fetched {
            Some(info) => Some(tensor_from(info, self.allocated)),
            None => None,
        }
    }

    /// Decides the outcome of tensor allocation from the native status:
    /// the interpreter is in the allocated state exactly when the status
    /// is OK, and a non-OK status is passed through as an error.
    pub fn allocate_tensors(&mut self, status: TfLiteStatus) -> (r: Result<(), Error>)
        ensures
            final(self).allocated == (status is Okay),
            final(self).interpreter == old(self).interpreter,
            final(self).input_count == old(self).input_count,
            final(self).output_count == old(self).output_count,
            final(self).model == old(self).model,
            final(self).delegates@ == old(self).delegates@,
            r is Ok <==> status is Okay,
            r is Err ==> r == Err::<(), Error>(Error::ErrorStatus(status)),
    {
        if status == TfLiteStatus::Okay {
            self.allocated = true;
            Ok(())
        } else {
            self.allocated = false;
            Err(Error::ErrorStatus(status))
        }
    }

    /// Decides the outcome of an inference run from the native status. The
    /// wrapper state is unchanged; a non-OK status is passed through as an
    /// error for the caller to interpret.
    pub fn invoke(&mut self, status: TfLiteStatus) -> (r: Result<(), Error>)
        ensures
            *final(self) == *old(self),
            r is Ok <==> status is Okay,
            r is Err ==> r == Err::<(), Error>(Error::ErrorStatus(status)),
    {
        if status == TfLiteStatus::Okay {
            Ok(())
        } else {
            Err(Error::ErrorStatus(status))
        }
    }

    /// How many output tensors the interpreter has.
    pub fn output_tensor_count(&self) -> (r: i32)
        ensures
            r == self.output_count,
    {
        self.output_count
    }

    /// Decides the output-tensor view for an index; same rules as
    /// `input_tensor`, against the output count.
    pub fn output_tensor(&self, index: i32, fetched: Option<TensorInfo>) -> (r: Option<Tensor>)
        ensures
            !(0 <= index < self.output_count) ==> r is None,
            (0 <= index < self.output_count) ==> match (r, fetched) {
                (Some(t), Some(info)) => t == spec_tensor_from(info, self.allocated),
                (None, None) => true,
                _ => false,
            },
            (r matches Some(t) ==> (t.data_present ==> self.allocated)),
    {
        if index < 0 || index >= self.output_count {
            return None;
        }
        match fetched {
            Some(info) => Some(tensor_from(info, self.allocated)),
            None => None,
        }
    }
}

impl Tensor {
    /// The tensor's element type.
    pub fn type_(&self) -> (r: TfLiteType)
        ensures
            r == self.type_,
    {
        self.type_
    }

    /// How many dimensions the tensor has.
    pub fn num_dims(&self) -> (r: i32)
        requires
            self.dims@.len() <= i32::MAX as int,
        ensures
            r as int == self.dims@.len(),
    {
        self.dims.len() as i32
    }

    /// One dimension of the tensor; the index must be in range.
    pub fn dim(&self, index: i32) -> (r: i32)
        requires
            0 <= index < self.dims@.len(),
        ensures
            r == self.dims@[index as int],
    {
        self.dims[index as usize]
    }

    /// The byte view of the tensor's storage: absent when no storage is
    /// materialized, otherwise exactly `byte_size` bytes long. The shell
    /// exposes the actual bytes of that length.
    pub fn data(&self) -> (r: Option<usize>)
        ensures
            r is Some <==> self.data_present,
            (r matches Some(n) ==> n == self.byte_size),
    {
        if self.data_present {
            Some(self.byte_size)
        } else {
            None
        }
    }

    /// The mutable byte view of the tensor's storage; present and sized
    /// exactly as `data` says, aliasing the same native memory.
    pub fn data_mut(&mut self) -> (r: Option<usize>)
        ensures
            *final(self) == *old(self),
            r is Some <==> old(self).data_present,
            (r matches Some(n) ==> n == old(self).byte_size),
    {
        if self.data_present {
            Some(self.byte_size)
        } else {
            None
        }
    }

    /// The tensor's name.
    pub fn name(&self) -> (r: &String)
        ensures
            r@ == self.name@,
    {
        &self.name
    }
}

} // verus!
