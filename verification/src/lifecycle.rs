//! What is asked of the container runtime: creating the toolbox, entering
//! it, removing it and listing the images it can be made from.

use vstd::prelude::*;
use crate::error::ToolboxError;
use crate::error::ToolboxErrorView;
use crate::idmap::uid_mapping;
use crate::idmap::uid_ranges;
use crate::idmap::UidRange;
use crate::images::choose_image;
use crate::images::image_choice_of;
use crate::images::ImageChoice;
use crate::names::DEBUGFS;
use crate::names::DEFAULT_NAME;
use crate::names::MAX_UID_COUNT;
use crate::names::STATE_ENV;
use crate::names::SYSROOT;
use crate::names::TOOLBOX_LABEL;
use crate::names::USR_BIN_SELF;
use crate::text::join2;
use crate::text::join3;
use crate::text::push_all;
use crate::text::push_str;
use crate::text::push_text;

verus! {

/// What the user asks of `create`.
#[derive(Debug, PartialEq, Eq)]
pub struct CreateOpts {
    /// The image to make the container from.
    pub image: Option<String>,
    /// The name of the container.
    pub name: Option<String>,
    /// Whether running inside a container is allowed.
    pub nested: bool,
    /// Whether a container of that name is removed first.
    pub destroy: bool,
}

/// What the user asks of `run`.
#[derive(Debug, PartialEq, Eq)]
pub struct RunOpts {
    /// The name of the container.
    pub name: Option<String>,
    /// Whether running inside a container is allowed.
    pub nested: bool,
    /// Whether the session keeps the root of the user namespace.
    pub as_userns_root: bool,
}

/// What the user asks of `rm`.
#[derive(Debug, PartialEq, Eq)]
pub struct RmOpts {
    /// The name of the container.
    pub name: String,
}

impl CreateOpts {
    /// How the image for the new toolbox is found: see `image_choice_of`.
    pub fn image_choice(&self) -> (r: ImageChoice)
        ensures
            r@ == image_choice_of(self.image.deep_view()),
    {
        choose_image(&self.image)
    }

    /// The name of the new container.
    pub fn container_name(&self) -> (r: String)
        ensures
            r@ == name_or_default(self.name.deep_view()),
    {
        container_name(&self.name)
    }
}

impl RunOpts {
    /// The name of the container to enter.
    pub fn container_name(&self) -> (r: String)
        ensures
            r@ == name_or_default(self.name.deep_view()),
    {
        container_name(&self.name)
    }
}

/// Commands that manage the toolbox run on the host: inside a container they
/// are refused, unless nesting was asked for.
pub fn nesting_guard(in_container: bool, nested: bool) -> (r: Result<(), ToolboxError>)
    ensures
        r is Err <==> in_container && !nested,
        r matches Err(e) ==> e@ == ToolboxErrorView::AlreadyInContainer,
{
    if in_container && !nested {
        Err(ToolboxError::AlreadyInContainer)
    } else {
        Ok(())
    }
}

/// The name a container goes by: the one given, else the default.
pub open spec fn name_or_default(name: Option<Seq<char>>) -> Seq<char> {
    match name {
        Some(n) => n,
        None => DEFAULT_NAME@,
    }
}

/// The name a container goes by: the one given, else the default.
pub fn container_name(name: &Option<String>) -> (r: String)
    ensures
        r@ == name_or_default(name.deep_view()),
{
    match name {
        Some(n) => n.clone(),
        None => String::from_str(DEFAULT_NAME),
    }
}

/// The switches that every toolbox container is created with.
pub open spec fn base_create_flags() -> Seq<Seq<char>> {
    seq![
        "create"@,
        "--interactive"@,
        "--tty"@,
        "--hostname=toolbox"@,
        "--network=host"@,
        "--ipc=host"@,
        "--privileged"@,
        "--security-opt=label=disable"@,
        "--tmpfs=/run:rw"@,
    ]
}

/// The flag that shows the host's directory `dir` below `/host`, following
/// the mounts that the host makes later.
pub open spec fn host_volume_flag(dir: Seq<char>) -> Seq<char> {
    "--volume="@ + dir + ":/host"@ + dir + ":rslave"@
}

/// The host directories that every toolbox sees below `/host`.
pub open spec fn host_dirs() -> Seq<Seq<char>> {
    seq!["/dev"@, "/usr"@, "/var"@, "/etc"@, "/run"@, "/tmp"@]
}

/// The flag that shows the kernel's debug directory in its usual place.
pub open spec fn debugfs_flag() -> Seq<char> {
    "--volume="@ + DEBUGFS@ + ":"@ + DEBUGFS@ + ":rslave"@
}

/// The flags of the id runs of `uid`, in order.
pub open spec fn uid_map_flags(uid: u32) -> Seq<Seq<char>> {
    uid_ranges(uid).map_values(|r: UidRange| r.flag_text())
}

/// The first of the arguments that create a container: the switches, the
/// label, the name, the flag for root or the three id runs of any other
/// user around the program itself, which is shown read-only at its fixed
/// place.
pub open spec fn create_head(name: Seq<char>, self_bin: Seq<char>, uid: u32) -> Seq<Seq<char>> {
    base_create_flags() + seq!["--label="@ + TOOLBOX_LABEL@ + "=true"@, "--name="@ + name] + (if uid
        == 0 {
        seq!["--pid=host"@]
    } else {
        Seq::empty()
    }) + seq!["--volume="@ + self_bin + ":"@ + USR_BIN_SELF@ + ":ro"@] + uid_map_flags(uid)
}

/// The flags that show the host in the container: its six directories, the
/// root of its deployments where it has one, and for root the kernel's debug
/// directory where the host has one.
pub open spec fn create_volumes(uid: u32, sysroot: bool, debugfs: bool) -> Seq<Seq<char>> {
    host_dirs().map_values(|d: Seq<char>| host_volume_flag(d)) + (if sysroot {
        seq![host_volume_flag(SYSROOT@)]
    } else {
        Seq::empty()
    }) + (if uid == 0 && debugfs {
        seq![debugfs_flag()]
    } else {
        Seq::empty()
    })
}

/// The arguments that create the toolbox container `name` from `image` for
/// the invoking user `uid`.
///
/// Root shares the host's processes, sees the kernel's debug directory where
/// the host has one (`debugfs`), and gets no id runs; any other user gets its
/// three runs. The root of the host's deployments is shown where the host
/// has one (`sysroot`). The program itself, found at `self_bin` on the host,
/// is shown read-only at its fixed place and started as the container's
/// first process. `env` holds the flags of the environment handed on.
pub open spec fn create_args(
    name: Seq<char>,
    image: Seq<char>,
    self_bin: Seq<char>,
    uid: u32,
    sysroot: bool,
    debugfs: bool,
    env: Seq<Seq<char>>,
) -> Seq<Seq<char>> {
    create_head(name, self_bin, uid) + create_volumes(uid, sysroot, debugfs) + env + seq![
        image,
        USR_BIN_SELF@,
        "internals"@,
        "run-pid1"@,
    ]
}

/// The flags that show the host's directories, written out.
pub proof fn lemma_host_volumes_written_out()
    ensures
        host_dirs().map_values(|d: Seq<char>| host_volume_flag(d)) == seq![
            "--volume=/dev:/host/dev:rslave"@,
            "--volume=/usr:/host/usr:rslave"@,
            "--volume=/var:/host/var:rslave"@,
            "--volume=/etc:/host/etc:rslave"@,
            "--volume=/run:/host/run:rslave"@,
            "--volume=/tmp:/host/tmp:rslave"@,
        ],
        host_volume_flag(SYSROOT@) == "--volume=/sysroot:/host/sysroot:rslave"@,
        debugfs_flag() == "--volume=/sys/kernel/debug:/sys/kernel/debug:rslave"@,
        host_volume_flag(SYSROOT@) != debugfs_flag(),
{
    reveal_strlit("--volume=");
    reveal_strlit(":/host");
    reveal_strlit(":rslave");
    reveal_strlit(":");
    reveal_strlit("/dev");
    reveal_strlit("/usr");
    reveal_strlit("/var");
    reveal_strlit("/etc");
    reveal_strlit("/run");
    reveal_strlit("/tmp");
    reveal_strlit("/sysroot");
    reveal_strlit("/sys/kernel/debug");
    reveal_strlit("--volume=/dev:/host/dev:rslave");
    reveal_strlit("--volume=/usr:/host/usr:rslave");
    reveal_strlit("--volume=/var:/host/var:rslave");
    reveal_strlit("--volume=/etc:/host/etc:rslave");
    reveal_strlit("--volume=/run:/host/run:rslave");
    reveal_strlit("--volume=/tmp:/host/tmp:rslave");
    reveal_strlit("--volume=/sysroot:/host/sysroot:rslave");
    reveal_strlit("--volume=/sys/kernel/debug:/sys/kernel/debug:rslave");
    assert(host_volume_flag("/dev"@) =~= "--volume=/dev:/host/dev:rslave"@);
    assert(host_volume_flag("/usr"@) =~= "--volume=/usr:/host/usr:rslave"@);
    assert(host_volume_flag("/var"@) =~= "--volume=/var:/host/var:rslave"@);
    assert(host_volume_flag("/etc"@) =~= "--volume=/etc:/host/etc:rslave"@);
    assert(host_volume_flag("/run"@) =~= "--volume=/run:/host/run:rslave"@);
    assert(host_volume_flag("/tmp"@) =~= "--volume=/tmp:/host/tmp:rslave"@);
    assert(host_volume_flag(SYSROOT@) =~= "--volume=/sysroot:/host/sysroot:rslave"@);
    assert(debugfs_flag() =~= "--volume=/sys/kernel/debug:/sys/kernel/debug:rslave"@);
    assert(host_volume_flag(SYSROOT@).len() != debugfs_flag().len());
    assert(host_dirs().map_values(|d: Seq<char>| host_volume_flag(d)) =~= seq![
        "--volume=/dev:/host/dev:rslave"@,
        "--volume=/usr:/host/usr:rslave"@,
        "--volume=/var:/host/var:rslave"@,
        "--volume=/etc:/host/etc:rslave"@,
        "--volume=/run:/host/run:rslave"@,
        "--volume=/tmp:/host/tmp:rslave"@,
    ]);
}

/// Where the flags of the host's directories begin among the arguments of
/// `create_args`: behind the switches, the label, the name, the program
/// itself, and the flag for root or the three id runs of any other user.
pub open spec fn host_volumes_at(uid: u32) -> int {
    if uid == 0 {
        13
    } else {
        15
    }
}

/// How many flags follow the host's directories for what only some hosts
/// have.
pub open spec fn optional_volumes(uid: u32, sysroot: bool, debugfs: bool) -> int {
    (if sysroot {
        1int
    } else {
        0int
    }) + (if uid == 0 && debugfs {
        1int
    } else {
        0int
    })
}

/// The container sees the host: whoever creates it, and from whatever
/// image, the arguments hold the flag of each of the six host directories,
/// in order, so that `/host/etc` in the container is the host's `/etc`.
/// Right behind them stands the flag for the root of the host's deployments
/// exactly where the host has one, then the flag for the kernel's debug
/// directory exactly where root creates and the host has one, then the
/// environment, and last the image and the start of the first process.
pub proof fn lemma_create_shows_host(
    name: Seq<char>,
    image: Seq<char>,
    self_bin: Seq<char>,
    uid: u32,
    sysroot: bool,
    debugfs: bool,
    env: Seq<Seq<char>>,
)
    ensures
        ({
            let args = create_args(name, image, self_bin, uid, sysroot, debugfs, env);
            let at = host_volumes_at(uid);
            let more = optional_volumes(uid, sysroot, debugfs);
            &&& args.len() == at + 6 + more + env.len() + 4
            &&& args.subrange(at, at + 6) == host_dirs().map_values(
                |d: Seq<char>| host_volume_flag(d),
            )
            &&& args[at + 3] == "--volume=/etc:/host/etc:rslave"@
            &&& (sysroot ==> args[at + 6] == host_volume_flag(SYSROOT@))
            &&& (uid == 0 && debugfs ==> args[at + 6 + more - 1] == debugfs_flag())
            &&& (!sysroot ==> forall|i: int|
                at + 6 <= i < at + 6 + more ==> #[trigger] args[i] != host_volume_flag(SYSROOT@))
            &&& args.subrange(at + 6 + more, at + 6 + more + env.len()) == env
            &&& args.subrange(args.len() - 4, args.len() as int) == seq![
                image,
                USR_BIN_SELF@,
                "internals"@,
                "run-pid1"@,
            ]
        }),
{
    let args = create_args(name, image, self_bin, uid, sysroot, debugfs, env);
    let at = host_volumes_at(uid);
    let more = optional_volumes(uid, sysroot, debugfs);
    let head = create_head(name, self_bin, uid);
    let volumes = create_volumes(uid, sysroot, debugfs);
    let six = host_dirs().map_values(|d: Seq<char>| host_volume_flag(d));
    let tail = seq![image, USR_BIN_SELF@, "internals"@, "run-pid1"@];
    lemma_host_volumes_written_out();
    assert(uid_map_flags(uid).len() == if uid == 0 {
        0int
    } else {
        3int
    });
    assert(head.len() == at);
    assert(volumes.len() == 6 + more);
    assert(volumes.subrange(0, 6) =~= six);
    assert(args.subrange(at, at + 6) =~= six);
    assert(args[at + 3] == six[3]);
    assert(args.subrange(at + 6 + more, at + 6 + more + env.len()) =~= env);
    assert(args.subrange(args.len() - 4, args.len() as int) =~= tail);
    assert forall|i: int| at + 6 <= i < at + 6 + more implies #[trigger] args[i] == volumes[i
        - at] by {}
}

fn push_host_volume(args: &mut Vec<String>, dir: &str)
    ensures
        final(args).deep_view() == old(args).deep_view().push(host_volume_flag(dir@)),
{
    let mut flag = String::from_str("--volume=");
    flag.append(dir);
    flag.append(":/host");
    flag.append(dir);
    flag.append(":rslave");
    push_text(args, flag);
}

fn push_uid_map(args: &mut Vec<String>, uid: u32)
    requires
        uid <= MAX_UID_COUNT,
    ensures
        final(args).deep_view() == old(args).deep_view() + uid_map_flags(uid),
{
    let ghost before = args.deep_view();
    let ranges = uid_mapping(uid);
    let mut i: usize = 0;
    while i < ranges.len()
        invariant
            i <= ranges.len(),
            ranges@ == uid_ranges(uid),
            args.deep_view() == before + uid_map_flags(uid).subrange(0, i as int),
        decreases ranges.len() - i,
    {
        push_text(args, ranges[i].flag());
        assert(uid_map_flags(uid).subrange(0, i + 1) =~= uid_map_flags(uid).subrange(0, i as int).push(
            ranges[i as int].flag_text(),
        ));
        assert(args.deep_view() =~= before + uid_map_flags(uid).subrange(0, i + 1));
        i += 1;
    }
    assert(uid_map_flags(uid).subrange(0, ranges.len() as int) =~= uid_map_flags(uid));
}

fn push_create_head(args: &mut Vec<String>, name: &str, self_bin: &str, uid: u32)
    requires
        uid <= MAX_UID_COUNT,
        old(args).deep_view() == Seq::<Seq<char>>::empty(),
    ensures
        final(args).deep_view() == create_head(name@, self_bin@, uid),
{
    push_str(args, "create");
    push_str(args, "--interactive");
    push_str(args, "--tty");
    push_str(args, "--hostname=toolbox");
    push_str(args, "--network=host");
    push_str(args, "--ipc=host");
    push_str(args, "--privileged");
    push_str(args, "--security-opt=label=disable");
    push_str(args, "--tmpfs=/run:rw");
    assert(args.deep_view() =~= base_create_flags());
    push_text(args, join3("--label=", TOOLBOX_LABEL, "=true"));
    push_text(args, join2("--name=", name));
    if uid == 0 {
        push_str(args, "--pid=host");
    }
    let mut bind = String::from_str("--volume=");
    bind.append(self_bin);
    bind.append(":");
    bind.append(USR_BIN_SELF);
    bind.append(":ro");
    push_text(args, bind);
    push_uid_map(args, uid);
    assert(args.deep_view() =~= create_head(name@, self_bin@, uid));
}

fn push_create_volumes(args: &mut Vec<String>, uid: u32, sysroot: bool, debugfs: bool)
    ensures
        final(args).deep_view() == old(args).deep_view() + create_volumes(uid, sysroot, debugfs),
{
    let ghost before = args.deep_view();
    push_host_volume(args, "/dev");
    push_host_volume(args, "/usr");
    push_host_volume(args, "/var");
    push_host_volume(args, "/etc");
    push_host_volume(args, "/run");
    push_host_volume(args, "/tmp");
    assert(args.deep_view() =~= before + host_dirs().map_values(
        |d: Seq<char>| host_volume_flag(d),
    ));
    if sysroot {
        push_host_volume(args, SYSROOT);
    }
    if uid == 0 && debugfs {
        let mut flag = String::from_str("--volume=");
        flag.append(DEBUGFS);
        flag.append(":");
        flag.append(DEBUGFS);
        flag.append(":rslave");
        push_text(args, flag);
    }
    assert(args.deep_view() =~= before + create_volumes(uid, sysroot, debugfs));
}

/// The arguments that create the toolbox container: see `create_args`.
pub fn create_command(
    name: &str,
    image: &str,
    self_bin: &str,
    uid: u32,
    sysroot: bool,
    debugfs: bool,
    env: &Vec<String>,
) -> (args: Vec<String>)
    requires
        uid <= MAX_UID_COUNT,
    ensures
        args.deep_view() == create_args(
            name@,
            image@,
            self_bin@,
            uid,
            sysroot,
            debugfs,
            env.deep_view(),
        ),
{
    let mut args: Vec<String> = Vec::new();
    assert(args.deep_view() =~= Seq::<Seq<char>>::empty());
    push_create_head(&mut args, name, self_bin, uid);
    push_create_volumes(&mut args, uid, sysroot, debugfs);
    push_all(&mut args, env);
    let ghost front = args.deep_view();
    push_str(&mut args, image);
    push_str(&mut args, USR_BIN_SELF);
    push_str(&mut args, "internals");
    push_str(&mut args, "run-pid1");
    assert(args.deep_view() =~= front + seq![image@, USR_BIN_SELF@, "internals"@, "run-pid1"@]);
    args
}

/// Whether a session can be entered: the container must exist. Where it does
/// not, the failure tells a host without any toolbox image, of which there
/// are `image_count`, from one where only the container `name` is missing.
pub open spec fn enter_check_of(container_exists: bool, name: Seq<char>, image_count: nat) -> Result<
    (),
    ToolboxErrorView,
> {
    if container_exists {
        Ok(())
    } else if image_count == 0 {
        Err(ToolboxErrorView::NoToolbox)
    } else {
        Err(ToolboxErrorView::ContainerMissing { name })
    }
}

/// The view of a success or of the failure in its place.
pub open spec fn unit_result_view(r: Result<(), ToolboxError>) -> Result<(), ToolboxErrorView> {
    match r {
        Ok(()) => Ok(()),
        Err(e) => Err(e@),
    }
}

/// Whether a session can be entered: see `enter_check_of`.
pub fn enter_check(container_exists: bool, name: &str, image_count: usize) -> (r: Result<
    (),
    ToolboxError,
>)
    ensures
        unit_result_view(r) == enter_check_of(container_exists, name@, image_count as nat),
{
    if container_exists {
        Ok(())
    } else if image_count == 0 {
        Err(ToolboxError::NoToolbox)
    } else {
        Err(ToolboxError::ContainerMissing { name: String::from_str(name) })
    }
}

/// The arguments that start the container `name`.
pub open spec fn start_args(name: Seq<char>) -> Seq<Seq<char>> {
    seq!["start"@, name]
}

/// The arguments that start the container `name`.
pub fn start_command(name: &str) -> (args: Vec<String>)
    ensures
        args.deep_view() == start_args(name@),
{
    let mut args: Vec<String> = Vec::new();
    assert(args.deep_view() =~= Seq::<Seq<char>>::empty());
    push_str(&mut args, "start");
    push_str(&mut args, name);
    assert(args.deep_view() =~= start_args(name@));
    args
}

/// The flag that carries the host state, written as the text `state`, into
/// the session.
pub open spec fn state_flag(state: Seq<char>) -> Seq<char> {
    "--env="@ + STATE_ENV@ + "="@ + state
}

/// What goes in front of the host state in its flag.
pub open spec fn state_flag_head() -> Seq<char> {
    "--env="@ + STATE_ENV@ + "="@
}

/// The flag carries the host state as it is: the text stands, whole and
/// unchanged, behind the head of the flag, whatever characters it holds.
pub proof fn lemma_state_flag_carries(state: Seq<char>)
    ensures
        state_flag_head().is_prefix_of(state_flag(state)),
        state_flag(state).skip(state_flag_head().len() as int) == state,
{
    let head = state_flag_head();
    assert(state_flag(state) =~= head + state);
    assert((head + state).subrange(0, head.len() as int) =~= head);
    assert((head + state).skip(head.len() as int) =~= state);
}

/// The arguments that open a session in the container `name`: the
/// environment `env` is handed on, the host state goes along as the text
/// `state`, and the program is started at its fixed place to set up the
/// session, as the root of the user namespace where that was asked for.
pub open spec fn enter_args(
    name: Seq<char>,
    env: Seq<Seq<char>>,
    state: Seq<char>,
    as_userns_root: bool,
) -> Seq<Seq<char>> {
    seq!["exec"@, "--interactive"@, "--tty"@] + env + seq![
        state_flag(state),
        name,
        USR_BIN_SELF@,
        "internals"@,
        "exec"@,
    ] + (if as_userns_root {
        seq!["--as-userns-root"@]
    } else {
        Seq::empty()
    })
}

/// The arguments that open a session in the container: see `enter_args`.
pub fn enter_command(name: &str, env: &Vec<String>, state: &str, as_userns_root: bool) -> (args:
    Vec<String>)
    ensures
        args.deep_view() == enter_args(name@, env.deep_view(), state@, as_userns_root),
{
    let mut args: Vec<String> = Vec::new();
    assert(args.deep_view() =~= Seq::<Seq<char>>::empty());
    push_str(&mut args, "exec");
    push_str(&mut args, "--interactive");
    push_str(&mut args, "--tty");
    push_all(&mut args, env);
    let mut flag = String::from_str("--env=");
    flag.append(STATE_ENV);
    flag.append("=");
    flag.append(state);
    push_text(&mut args, flag);
    push_str(&mut args, name);
    push_str(&mut args, USR_BIN_SELF);
    push_str(&mut args, "internals");
    push_str(&mut args, "exec");
    if as_userns_root {
        push_str(&mut args, "--as-userns-root");
    }
    assert(args.deep_view() =~= enter_args(name@, env.deep_view(), state@, as_userns_root));
    args
}

/// Removing the container `name`: nothing to do where it does not exist,
/// else the arguments that remove it by force.
pub open spec fn removal_args(exists: bool, name: Seq<char>) -> Option<Seq<Seq<char>>> {
    if exists {
        Some(seq!["rm"@, "-f"@, name])
    } else {
        None
    }
}

/// Removing the container `name`: see `removal_args`.
pub fn removal(exists: bool, name: &str) -> (r: Option<Vec<String>>)
    ensures
        r.deep_view() == removal_args(exists, name@),
{
    if exists {
        let mut args: Vec<String> = Vec::new();
        assert(args.deep_view() =~= Seq::<Seq<char>>::empty());
        push_str(&mut args, "rm");
        push_str(&mut args, "-f");
        push_str(&mut args, name);
        assert(args.deep_view() =~= seq!["rm"@, "-f"@, name@]);
        Some(args)
    } else {
        None
    }
}

/// Making sure of the image `image`: nothing to do where it is present, else
/// the arguments that pull it.
pub open spec fn pull_args(present: bool, image: Seq<char>) -> Option<Seq<Seq<char>>> {
    if present {
        None
    } else {
        Some(seq!["pull"@, image])
    }
}

/// Making sure of the image `image`: see `pull_args`.
pub fn ensure_image(present: bool, image: &str) -> (r: Option<Vec<String>>)
    ensures
        r.deep_view() == pull_args(present, image@),
{
    if present {
        None
    } else {
        let mut args: Vec<String> = Vec::new();
        assert(args.deep_view() =~= Seq::<Seq<char>>::empty());
        push_str(&mut args, "pull");
        push_str(&mut args, image);
        assert(args.deep_view() =~= seq!["pull"@, image@]);
        Some(args)
    }
}

/// The arguments that narrow a listing of images to those that carry the
/// label `label`.
pub open spec fn label_filter(label: Seq<char>) -> Seq<Seq<char>> {
    seq!["--filter"@, "label="@ + label + "=true"@]
}

/// The arguments that narrow a listing of images to those that carry the
/// label `label`.
pub fn label_filter_args(label: &str) -> (args: Vec<String>)
    ensures
        args.deep_view() == label_filter(label@),
{
    let mut args: Vec<String> = Vec::new();
    assert(args.deep_view() =~= Seq::<Seq<char>>::empty());
    push_str(&mut args, "--filter");
    push_text(&mut args, join3("label=", label, "=true"));
    assert(args.deep_view() =~= label_filter(label@));
    args
}

/// What goes in front of a failure to list the images that carry `label`.
pub open spec fn lookup_failure(label: Seq<char>, detail: Seq<char>) -> Seq<char> {
    "Finding containers with label \""@ + label + "\": "@ + detail
}

/// The text of a failure to list the images that carry `label`.
pub fn describe_lookup_failure(label: &str, detail: &str) -> (r: String)
    ensures
        r@ == lookup_failure(label@, detail@),
{
    let mut r = String::from_str("Finding containers with label \"");
    r.append(label);
    r.append("\": ");
    r.append(detail);
    r
}

} // verus!
