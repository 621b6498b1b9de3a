//! The description of a kernel driver and the channel to its device node.
//!
//! Nothing here talks to the operating system. Each operation on the channel
//! comes in two parts: a function that decides what to ask of the platform
//! (`open_request`, `io_request`), and a function that takes the platform's
//! answer and moves the channel on (`open`, `io`). A channel that is in the
//! wrong state yields no request, so nothing is asked of the platform.

use crate::error::{DeviceOperation, DriverError, ValidationError};
use crate::wire::{decode_response, encode_request, little_endian_value, request_bytes, RESPONSE_LEN};
use vstd::prelude::*;
use vstd::string::{StrSliceExecFns, StringExecFns};

verus! {

/// The device type of a driver that names none: `FILE_DEVICE_UNKNOWN`.
pub const FILE_DEVICE_UNKNOWN: u32 = 0x22;

/// Access right: read from the device.
pub const GENERIC_READ: u32 = 0x8000_0000;

/// Access right: write to the device.
pub const GENERIC_WRITE: u32 = 0x4000_0000;

/// Creation disposition: open the device node only if it exists.
pub const OPEN_EXISTING: u32 = 3;

/// File attribute: nothing special.
pub const FILE_ATTRIBUTE_NORMAL: u32 = 0x80;

/// The handle value by which the platform reports that opening failed.
pub const INVALID_HANDLE_VALUE: isize = -1;

/// An open handle to the driver's device node, as the platform gave it.
#[derive(Clone, Copy, Debug, PartialEq, Eq, Structural)]
pub struct DeviceHandle {
    pub raw: isize,
}

/// What to ask of the platform in order to open the channel.
#[derive(Clone, Debug, PartialEq, Eq)]
pub struct OpenRequest {
    /// The path of the device node.
    pub path: String,
    /// The access rights to ask for.
    pub desired_access: u32,
    /// The share mode: zero, the handle is exclusive.
    pub share_mode: u32,
    /// What to do if the node exists or not.
    pub creation_disposition: u32,
    /// Flags and attributes of the handle.
    pub flags_and_attributes: u32,
}

/// What the platform answered to an [`OpenRequest`].
#[derive(Clone, Copy, Debug, PartialEq, Eq, Structural)]
pub struct OpenReply {
    /// The handle that came back, [`INVALID_HANDLE_VALUE`] on failure.
    pub handle: isize,
    /// The platform's last error code after the call.
    pub last_error: u32,
}

/// What to ask of the platform in order to send one control code.
#[derive(Clone, Copy, Debug, PartialEq, Eq)]
pub struct IoRequest {
    /// The handle to send it on.
    pub handle: DeviceHandle,
    /// The control code.
    pub ioctl_code: u32,
    /// The bytes of the input buffer.
    pub input: [u8; 4],
    /// The size of the output buffer to offer.
    pub output_len: usize,
}

/// What the platform answered to an [`IoRequest`].
#[derive(Clone, Debug, PartialEq, Eq)]
pub struct IoReply {
    /// Whether the platform reported success.
    pub succeeded: bool,
    /// The bytes that the driver wrote to the output buffer.
    pub output: Vec<u8>,
    /// The platform's last error code after the call.
    pub last_error: u32,
}

/// A file that has to be written before the driver can be installed.
#[derive(Clone, Debug, PartialEq, Eq)]
pub struct StagedFile {
    /// Where to write it; a file that is already there is overwritten.
    pub path: String,
    /// What to write.
    pub contents: Vec<u8>,
}

/// The characters that the path of every device node starts with: `\\.\`.
pub open spec fn device_path_prefix() -> Seq<char> {
    seq!['\\', '\\', '.', '\\']
}

/// The characters that the name of a staged driver file ends with: `.sys`.
pub open spec fn driver_file_suffix() -> Seq<char> {
    seq!['.', 's', 'y', 's']
}

/// Whether a path that ends with `c` needs no separator before a file name
/// is put behind it.
pub open spec fn is_separator(c: char) -> bool {
    c == '\\' || c == '/'
}

/// The path of the file `name` in the directory `directory`: the two put
/// together, with a backslash between them unless the directory is empty or
/// ends with a separator.
pub open spec fn path_in(directory: Seq<char>, name: Seq<char>) -> Seq<char> {
    if directory.len() == 0 || is_separator(directory.last()) {
        directory + name
    } else {
        directory + seq!['\\'] + name
    }
}

/// What a [`DriverBuilder`] holds.
pub struct BuilderView {
    pub identity: Seq<char>,
    pub description: Seq<char>,
    pub device_type: u32,
    pub path: Seq<char>,
    pub binary: Seq<u8>,
}

/// What a [`WinKernelDriver`] holds: the description it was built from, which
/// never changes, and the handle of the channel, if it is open.
pub struct DriverView {
    pub identity: Seq<char>,
    pub description: Seq<char>,
    pub device_type: u32,
    pub path: Seq<char>,
    pub binary: Seq<u8>,
    pub handle: Option<DeviceHandle>,
}

impl BuilderView {
    /// What is missing for a driver to be built, if anything is.
    pub open spec fn missing(self) -> Option<ValidationError> {
        if self.identity.len() == 0 {
            Some(ValidationError::MissingDeviceId)
        } else if self.binary.len() == 0 && self.path.len() == 0 {
            Some(ValidationError::MissingDriverBinary)
        } else {
            None
        }
    }

    /// The name of the file that the bytes of the driver are staged in: the
    /// device id followed by `.sys`.
    pub open spec fn staging_file_name(self) -> Seq<char> {
        self.identity + driver_file_suffix()
    }

    /// Where the driver file of the built driver lies: in the temporary
    /// directory under its staging name if bytes were given, else at the
    /// path that was set.
    pub open spec fn built_path(self, temp_dir: Seq<char>) -> Seq<char> {
        if self.binary.len() > 0 {
            path_in(temp_dir, self.staging_file_name())
        } else {
            self.path
        }
    }

    /// The driver that is built from this description: closed, at
    /// [`BuilderView::built_path`].
    pub open spec fn built(self, temp_dir: Seq<char>) -> DriverView {
        DriverView {
            identity: self.identity,
            description: self.description,
            device_type: self.device_type,
            path: self.built_path(temp_dir),
            binary: self.binary,
            handle: None,
        }
    }
}

impl DriverView {
    /// Whether the description is complete: it names the driver and says
    /// where its file lies.
    pub open spec fn well_formed(self) -> bool {
        self.identity.len() > 0 && self.path.len() > 0
    }

    /// The same driver with another handle, or none.
    pub open spec fn with_handle(self, handle: Option<DeviceHandle>) -> DriverView {
        DriverView { handle, ..self }
    }

    /// The path of the driver's device node.
    pub open spec fn device_path(self) -> Seq<char> {
        device_path_prefix() + self.identity
    }

    /// The channel after the platform answered an open request, and what
    /// the caller is told. An open channel stays as it is, whatever the
    /// answer. A closed one takes the handle, unless the platform reported
    /// failure.
    pub open spec fn after_open(self, reply: OpenReply) -> (DriverView, Result<(), DriverError>) {
        if self.handle is Some {
            (self, Err(DriverError::AlreadyOpen))
        } else if reply.handle == INVALID_HANDLE_VALUE {
            (self, Err(DriverError::Device { operation: DeviceOperation::Open, code: reply.last_error }))
        } else {
            (self.with_handle(Some(DeviceHandle { raw: reply.handle })), Ok(()))
        }
    }

    /// The channel after a close, and the handle that the caller has to
    /// release.
    pub open spec fn after_close(self) -> (DriverView, Result<DeviceHandle, DriverError>) {
        match self.handle {
            Some(handle) => (self.with_handle(None), Ok(handle)),
            None => (self, Err(DriverError::NotOpen)),
        }
    }

    /// What the caller is told after the platform answered a control code.
    pub open spec fn io_result(self, ioctl_code: u32, reply: IoReply) -> Result<u64, DriverError> {
        if self.handle is None {
            Err(DriverError::NotOpen)
        } else if !reply.succeeded {
            Err(
                DriverError::Device {
                    operation: DeviceOperation::Control(ioctl_code),
                    code: reply.last_error,
                },
            )
        } else if reply.output@.len() != RESPONSE_LEN {
            Err(
                DriverError::Protocol {
                    ioctl_code,
                    code: reply.last_error,
                    received: reply.output@.len() as usize,
                },
            )
        } else {
            Ok(little_endian_value(reply.output@) as u64)
        }
    }
}

/// A description without a device id builds no driver, nor does one with
/// neither bytes nor a path. Every other builds one. Where bytes were given,
/// its file is to be staged in the temporary directory, under a name that is
/// made of the device id; where a path alone was given, it lies there.
pub proof fn lemma_what_builds(builder: BuilderView, temp_dir: Seq<char>)
    ensures
        builder.identity.len() == 0 ==> builder.missing() == Some(ValidationError::MissingDeviceId),
        builder.identity.len() > 0 && builder.binary.len() == 0 && builder.path.len() == 0
            ==> builder.missing() == Some(ValidationError::MissingDriverBinary),
        builder.identity.len() > 0 && builder.binary.len() > 0 ==> {
            &&& builder.missing() is None
            &&& builder.built(temp_dir).path == path_in(temp_dir, builder.identity + driver_file_suffix())
            &&& builder.built(temp_dir).binary == builder.binary
        },
        builder.identity.len() > 0 && builder.binary.len() == 0 && builder.path.len() > 0 ==> {
            &&& builder.missing() is None
            &&& builder.built(temp_dir).path == builder.path
        },
        builder.missing() is None ==> builder.built(temp_dir).well_formed(),
{
}

/// Two drivers with different device ids are staged in different files of
/// one directory.
pub proof fn lemma_staging_is_keyed_by_identity(temp_dir: Seq<char>, a: BuilderView, b: BuilderView)
    requires
        a.identity != b.identity,
    ensures
        path_in(temp_dir, a.staging_file_name()) != path_in(temp_dir, b.staging_file_name()),
{
    let pa = path_in(temp_dir, a.staging_file_name());
    let pb = path_in(temp_dir, b.staging_file_name());
    let head = if temp_dir.len() == 0 || is_separator(temp_dir.last()) {
        temp_dir
    } else {
        temp_dir + seq!['\\']
    };
    assert(pa =~= head + a.identity + driver_file_suffix());
    assert(pb =~= head + b.identity + driver_file_suffix());
    if pa == pb {
        let n = head.len() as int;
        assert(a.identity.len() == b.identity.len()) by {
            assert(pa.len() == n + a.identity.len() + 4);
            assert(pb.len() == n + b.identity.len() + 4);
        }
        assert forall|i: int| 0 <= i < a.identity.len() implies a.identity[i] == b.identity[i] by {
            assert(pa[n + i] == a.identity[i]);
            assert(pb[n + i] == b.identity[i]);
        }
        assert(a.identity =~= b.identity);
    }
}

/// Opening a channel that is open already always fails, whatever the
/// platform answered, and leaves the channel as it is.
pub proof fn lemma_open_on_open_channel_fails(channel: DriverView, reply: OpenReply)
    requires
        channel.handle is Some,
    ensures
        channel.after_open(reply) == (channel, Err::<(), DriverError>(DriverError::AlreadyOpen)),
{
}

/// Closing a channel that is closed always fails, and leaves the channel as
/// it is.
pub proof fn lemma_close_on_closed_channel_fails(channel: DriverView)
    requires
        channel.handle is None,
    ensures
        channel.after_close() == (channel, Err::<DeviceHandle, DriverError>(DriverError::NotOpen)),
{
}

/// A control code on a channel that is closed always fails, whatever the
/// platform answered.
pub proof fn lemma_io_on_closed_channel_fails(channel: DriverView, ioctl_code: u32, reply: IoReply)
    requires
        channel.handle is None,
    ensures
        channel.io_result(ioctl_code, reply) == Err::<u64, DriverError>(DriverError::NotOpen),
{
}

/// A channel goes from closed to open to closed: opening a closed channel
/// with a handle and closing it hands that handle back and leaves the
/// channel as it was before. The description of the driver is never changed.
pub proof fn lemma_open_then_close(channel: DriverView, reply: OpenReply)
    requires
        channel.handle is None,
        reply.handle != INVALID_HANDLE_VALUE,
    ensures
        channel.after_open(reply).1 is Ok,
        channel.after_open(reply).0.handle == Some(DeviceHandle { raw: reply.handle }),
        channel.after_open(reply).0.after_close() == (
            channel,
            Ok::<DeviceHandle, DriverError>(DeviceHandle { raw: reply.handle }),
        ),
{
}

/// Use this to describe a kernel driver and build the object to talk to it.
pub struct DriverBuilder {
    device_id: &'static str,
    device_description: &'static str,
    device_type: u32,
    driver_path: String,
    driver_bin: Vec<u8>,
}

impl View for DriverBuilder {
    type V = BuilderView;

    closed spec fn view(&self) -> BuilderView {
        BuilderView {
            identity: self.device_id@,
            description: self.device_description@,
            device_type: self.device_type,
            path: self.driver_path@,
            binary: self.driver_bin@,
        }
    }
}

impl DriverBuilder {
    /// A description with nothing set, of device type
    /// [`FILE_DEVICE_UNKNOWN`].
    pub fn new() -> (builder: Self)
        ensures
            builder@ == (BuilderView {
                identity: Seq::empty(),
                description: Seq::empty(),
                device_type: FILE_DEVICE_UNKNOWN,
                path: Seq::empty(),
                binary: Seq::empty(),
            }),
    {
        let device_id: &'static str = "";
        proof {
            reveal_strlit("");
        }
        let builder = DriverBuilder {
            device_id,
            device_description: device_id,
            device_type: FILE_DEVICE_UNKNOWN,
            driver_path: String::new(),
            driver_bin: Vec::new(),
        };
        assert(builder@.identity =~= Seq::<char>::empty());
        assert(builder@.binary =~= Seq::<u8>::empty());
        builder
    }

    /// Set the device id (required).
    pub fn set_device_id(self, device_id: &'static str) -> (builder: Self)
        ensures
            builder@ == (BuilderView { identity: device_id@, ..self@ }),
    {
        let mut builder = self;
        builder.device_id = device_id;
        builder
    }

    /// Set the device description.
    pub fn set_device_description(self, device_description: &'static str) -> (builder: Self)
        ensures
            builder@ == (BuilderView { description: device_description@, ..self@ }),
    {
        let mut builder = self;
        builder.device_description = device_description;
        builder
    }

    /// Set the device type (defaults to [`FILE_DEVICE_UNKNOWN`]).
    pub fn set_device_type(self, device_type: u32) -> (builder: Self)
        ensures
            builder@ == (BuilderView { device_type, ..self@ }),
    {
        let mut builder = self;
        builder.device_type = device_type;
        builder
    }

    /// Set the path to the driver file (optional).
    pub fn set_driver_path(self, driver_path: String) -> (builder: Self)
        ensures
            builder@ == (BuilderView { path: driver_path@, ..self@ }),
    {
        let mut builder = self;
        builder.driver_path = driver_path;
        builder
    }

    /// Use the bytes of a driver file. They are to be written to the staging
    /// path that [`DriverBuilder::build`] is given.
    pub fn set_driver_bin(self, driver_bin: Vec<u8>) -> (builder: Self)
        ensures
            builder@ == (BuilderView { binary: driver_bin@, ..self@ }),
    {
        let mut builder = self;
        builder.driver_bin = driver_bin;
        builder
    }

    /// The name of the file that the bytes of the driver are staged in: the
    /// device id followed by `.sys`.
    pub fn staging_file_name(&self) -> (name: String)
        ensures
            name@ == self@.staging_file_name(),
    {
        proof {
            reveal_strlit(".sys");
        }
        let name = String::from_str(self.device_id).concat(".sys");
        assert(".sys"@ =~= driver_file_suffix());
        name
    }

    /// Build the driver object. Where the bytes of a driver file were set,
    /// they are to be written to the temporary directory `temp_dir`, under
    /// the name that [`DriverBuilder::staging_file_name`] gives: that becomes
    /// the path of the driver file, here and in the driver that is built.
    /// See [`WinKernelDriver::staged_file`]. Fails where something is
    /// missing, and then changes nothing.
    pub fn build(&mut self, temp_dir: &str) -> (result: Result<WinKernelDriver, ValidationError>)
        ensures
            match result {
                Ok(driver) => {
                    &&& old(self)@.missing() is None
                    &&& driver@ == old(self)@.built(temp_dir@)
                    &&& driver@.well_formed()
                    &&& final(self)@ == (BuilderView { path: driver@.path, ..old(self)@ })
                },
                Err(e) => old(self)@.missing() == Some(e) && final(self)@ == old(self)@,
            },
    {
        if self.device_id.is_empty() {
            return Err(ValidationError::MissingDeviceId);
        }
        if self.driver_bin.len() == 0 && self.driver_path.as_str().is_empty() {
            return Err(ValidationError::MissingDriverBinary);
        }
        if self.driver_bin.len() > 0 {
            let name = self.staging_file_name();
            self.driver_path = join_path(temp_dir, name.as_str());
        }
        let driver = WinKernelDriver {
            service_description: self.device_description,
            driver_path: self.driver_path.clone(),
            device_id: self.device_id,
            device_type: self.device_type,
            driver_bin: copy_bytes(&self.driver_bin),
            device: None,
        };
        Ok(driver)
    }
}

/// The path of the file `name` in the directory `directory`.
pub fn join_path(directory: &str, name: &str) -> (path: String)
    ensures
        path@ == path_in(directory@, name@),
{
    proof {
        reveal_strlit("\\");
    }
    assert("\\"@ =~= seq!['\\']);
    let n = directory.unicode_len();
    let mut path = String::from_str(directory);
    if n > 0 {
        let last = directory.get_char(n - 1);
        if last != '\\' && last != '/' {
            path.append("\\");
        }
    }
    path.append(name);
    path
}

/// A copy of `bytes`.
fn copy_bytes(bytes: &Vec<u8>) -> (copy: Vec<u8>)
    ensures
        copy@ == bytes@,
{
    let mut copy: Vec<u8> = Vec::new();
    let mut i: usize = 0;
    while i < bytes.len()
        invariant
            i <= bytes.len(),
            copy@ == bytes@.subrange(0, i as int),
        decreases bytes.len() - i,
    {
        copy.push(bytes[i]);
        i = i + 1;
        assert(copy@ =~= bytes@.subrange(0, i as int));
    }
    assert(bytes@.subrange(0, i as int) =~= bytes@);
    copy
}

/// A kernel driver, and the channel to its device node.
///
/// The driver is installed as a service. Once it runs, the channel can be
/// opened, and control codes can be sent until it is closed again.
pub struct WinKernelDriver {
    service_description: &'static str,
    driver_path: String,
    device_id: &'static str,
    device_type: u32,
    driver_bin: Vec<u8>,
    device: Option<DeviceHandle>,
}

impl View for WinKernelDriver {
    type V = DriverView;

    closed spec fn view(&self) -> DriverView {
        DriverView {
            identity: self.device_id@,
            description: self.service_description@,
            device_type: self.device_type,
            path: self.driver_path@,
            binary: self.driver_bin@,
            handle: self.device,
        }
    }
}

impl WinKernelDriver {
    #[verifier::type_invariant]
    closed spec fn complete(&self) -> bool {
        self@.well_formed()
    }

    /// The device id: the name of the service and of the device node.
    pub fn device_id(&self) -> (id: &'static str)
        ensures
            id@ == self@.identity,
            id@.len() > 0,
    {
        proof {
            use_type_invariant(self);
        }
        self.device_id
    }

    /// The description that the service is shown with.
    pub fn service_description(&self) -> (description: &'static str)
        ensures
            description@ == self@.description,
    {
        self.service_description
    }

    /// The device type that the driver's control codes are made with.
    pub fn device_type(&self) -> (device_type: u32)
        ensures
            device_type == self@.device_type,
    {
        self.device_type
    }

    /// The path of the driver file.
    pub fn driver_path(&self) -> (path: &str)
        ensures
            path@ == self@.path,
            path@.len() > 0,
    {
        proof {
            use_type_invariant(self);
        }
        self.driver_path.as_str()
    }

    /// The file that has to be written before the driver is installed: the
    /// bytes that the driver was built with, at the path of the driver file.
    /// `None` where it was built with a path alone.
    pub fn staged_file(&self) -> (file: Option<StagedFile>)
        ensures
            file is Some <==> self@.binary.len() > 0,
            file matches Some(f) ==> f.path@ == self@.path && f.contents@ == self@.binary,
    {
        if self.driver_bin.len() > 0 {
            Some(StagedFile { path: self.driver_path.clone(), contents: copy_bytes(&self.driver_bin) })
        } else {
            None
        }
    }

    /// Check to see if there is an open handle to the driver.
    pub fn opened(&self) -> (opened: bool)
        ensures
            opened == self@.handle is Some,
    {
        self.device.is_some()
    }

    /// The path of the driver's device node: `\\.\` and the device id.
    pub fn device_path(&self) -> (path: String)
        ensures
            path@ == self@.device_path(),
    {
        proof {
            reveal_strlit("\\\\.\\");
        }
        let path = String::from_str("\\\\.\\").concat(self.device_id);
        assert("\\\\.\\"@ =~= device_path_prefix());
        path
    }

    /// What to ask of the platform in order to open the channel: the device
    /// node for reading and writing, which has to exist. A channel that is
    /// open already yields no request.
    pub fn open_request(&self) -> (result: Result<OpenRequest, DriverError>)
        ensures
            self@.handle is Some ==> result == Err::<OpenRequest, DriverError>(DriverError::AlreadyOpen),
            self@.handle is None ==> (result matches Ok(request) && {
                &&& request.path@ == self@.device_path()
                &&& request.desired_access == GENERIC_READ | GENERIC_WRITE
                &&& request.desired_access == 0xC000_0000
                &&& request.share_mode == 0
                &&& request.creation_disposition == OPEN_EXISTING
                &&& request.flags_and_attributes == FILE_ATTRIBUTE_NORMAL
            }),
    {
        if self.opened() {
            return Err(DriverError::AlreadyOpen);
        }
        assert(0x8000_0000u32 | 0x4000_0000u32 == 0xC000_0000u32) by (bit_vector);
        Ok(
            OpenRequest {
                path: self.device_path(),
                desired_access: GENERIC_READ | GENERIC_WRITE,
                share_mode: 0,
                creation_disposition: OPEN_EXISTING,
                flags_and_attributes: FILE_ATTRIBUTE_NORMAL,
            },
        )
    }

    /// Open the channel with the platform's answer to
    /// [`WinKernelDriver::open_request`]. Once it is open,
    /// [`WinKernelDriver::io`] can be used. Fails on a channel that is open
    /// already, whatever the answer, and where the platform reported failure;
    /// the channel is then as before.
    pub fn open(&mut self, reply: OpenReply) -> (result: Result<(), DriverError>)
        ensures
            (final(self)@, result) == old(self)@.after_open(reply),
    {
        if self.opened() {
            return Err(DriverError::AlreadyOpen);
        }
        if reply.handle == INVALID_HANDLE_VALUE {
            return Err(DriverError::Device { operation: DeviceOperation::Open, code: reply.last_error });
        }
        proof {
            use_type_invariant(&*self);
        }
        self.device = Some(DeviceHandle { raw: reply.handle });
        Ok(())
    }

    /// Close the channel. The handle that it held is handed to the caller,
    /// who releases it; the channel is closed whether or not the platform
    /// then reports success. Fails on a channel that is not open.
    pub fn close(&mut self) -> (result: Result<DeviceHandle, DriverError>)
        ensures
            (final(self)@, result) == old(self)@.after_close(),
    {
        match self.device {
            Some(handle) => {
                proof {
                    use_type_invariant(&*self);
                }
                self.device = None;
                Ok(handle)
            },
            None => Err(DriverError::NotOpen),
        }
    }

    /// What to ask of the platform in order to send a control code with
    /// one 32-bit parameter: four bytes in, most significant first, and room
    /// for eight bytes out. A channel that is not open yields no request.
    ///
    /// Control codes are made with [`crate::ioctl::io_control_code`]; which
    /// ones a driver answers is for the driver to say.
    pub fn io_request(&self, ioctl_code: u32, in_buffer: u32) -> (result: Result<IoRequest, DriverError>)
        ensures
            match self@.handle {
                Some(handle) => result matches Ok(request) && {
                    &&& request.handle == handle
                    &&& request.ioctl_code == ioctl_code
                    &&& request.input@ == request_bytes(in_buffer)
                    &&& request.output_len == RESPONSE_LEN
                },
                None => result == Err::<IoRequest, DriverError>(DriverError::NotOpen),
            },
    {
        match self.device {
            Some(handle) => Ok(
                IoRequest { handle, ioctl_code, input: encode_request(in_buffer), output_len: RESPONSE_LEN },
            ),
            None => Err(DriverError::NotOpen),
        }
    }

    /// The result of a control code, from the platform's answer to
    /// [`WinKernelDriver::io_request`]: the eight bytes that the driver wrote,
    /// read as a number, least significant byte first. Fails on a channel
    /// that is not open, whatever the answer; where the platform reported
    /// failure; and where the driver wrote other than eight bytes.
    pub fn io(&self, ioctl_code: u32, reply: &IoReply) -> (result: Result<u64, DriverError>)
        ensures
            result == self@.io_result(ioctl_code, *reply),
    {
        if !self.opened() {
            return Err(DriverError::NotOpen);
        }
        if !reply.succeeded {
            return Err(
                DriverError::Device {
                    operation: DeviceOperation::Control(ioctl_code),
                    code: reply.last_error,
                },
            );
        }
        match decode_response(reply.output.as_slice()) {
            Some(value) => Ok(value),
            None => Err(
                DriverError::Protocol {
                    ioctl_code,
                    code: reply.last_error,
                    received: reply.output.len(),
                },
            ),
        }
    }
}

} // verus!
