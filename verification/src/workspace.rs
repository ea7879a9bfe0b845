//! Workspace materialization: the file operations that prepare a VM's
//! chroot workspace, and the cleanup of stale files before a start.
//!
//! The library computes the operations; the embedding program performs
//! them. Copies are skip-if-exists, which makes materialization idempotent
//! and lets a second create after a partial failure avoid re-copying large
//! images. The filesystem model in this module makes that precise.

use vstd::prelude::*;

use crate::config::{Config, ConfigView, DriveView, spec_host_socket_path};
use crate::error::Error;
use crate::strutil::{
    dir_name, file_name, path_join, spec_dir_name, spec_file_name, spec_path_join,
};
use crate::api::{spec_drives_ok, spec_initrd_ok};

verus! {

/// The mathematical content of a [`FileOp`].
pub enum FileOpView {
    /// Create the directory and its missing parents; nothing if present.
    EnsureDir(Seq<char>),
    /// Copy `src` to `dst` unless `dst` already exists.
    CopyIfAbsent {
        /// The file to copy.
        src: Seq<char>,
        /// Where the copy goes.
        dst: Seq<char>,
    },
}

/// One idempotent step of workspace materialization.
#[derive(Debug)]
pub enum FileOp {
    /// Create the directory and its missing parents; nothing if present.
    EnsureDir(String),
    /// Copy `src` to `dst` unless `dst` already exists.
    CopyIfAbsent {
        /// The file to copy.
        src: String,
        /// Where the copy goes.
        dst: String,
    },
}

impl View for FileOp {
    type V = FileOpView;

    closed spec fn view(&self) -> FileOpView {
        match self {
            FileOp::EnsureDir(d) => FileOpView::EnsureDir(d@),
            FileOp::CopyIfAbsent { src, dst } => FileOpView::CopyIfAbsent {
                src: src@,
                dst: dst@,
            },
        }
    }
}

/// The views of a sequence of file operations.
pub open spec fn file_op_views(ops: Seq<FileOp>) -> Seq<FileOpView> {
    ops.map_values(|op: FileOp| op@)
}

/// One step of pre-start cleanup. Removing something that is absent is not
/// an error.
#[derive(Debug)]
pub enum CleanupOp {
    /// Remove the file if it exists.
    RemoveFile(String),
    /// Remove the directory tree if it exists.
    RemoveDirAll(String),
}

/// The mathematical content of a [`CleanupOp`].
pub enum CleanupOpView {
    /// Remove the file if it exists.
    RemoveFile(Seq<char>),
    /// Remove the directory tree if it exists.
    RemoveDirAll(Seq<char>),
}

impl View for CleanupOp {
    type V = CleanupOpView;

    closed spec fn view(&self) -> CleanupOpView {
        match self {
            CleanupOp::RemoveFile(p) => CleanupOpView::RemoveFile(p@),
            CleanupOp::RemoveDirAll(p) => CleanupOpView::RemoveDirAll(p@),
        }
    }
}

/// The views of a sequence of cleanup operations.
pub open spec fn cleanup_op_views(ops: Seq<CleanupOp>) -> Seq<CleanupOpView> {
    ops.map_values(|op: CleanupOp| op@)
}

/// The copy that carries a drive image into the workspace, under its bare
/// file name.
pub open spec fn spec_drive_copy(ws: Seq<char>, d: DriveView) -> FileOpView {
    FileOpView::CopyIfAbsent {
        src: d.src_path,
        dst: spec_path_join(ws, spec_file_name(d.src_path)->Some_0),
    }
}

/// The operations that materialize a workspace, in order: the workspace
/// directory; the kernel image under the fixed name `kernel`; the initrd,
/// if one is configured, under its file name; every drive image under its
/// file name; and the directory that will hold the control socket.
pub open spec fn spec_create_ops(c: ConfigView) -> Seq<FileOpView> {
    let ws = c.jailer_cfg.workspace_dir;
    seq![
        FileOpView::EnsureDir(ws),
        FileOpView::CopyIfAbsent {
            src: c.src_kernel_image_path,
            dst: spec_path_join(ws, "kernel"@),
        },
    ] + (match c.src_initrd_path {
        Some(p) => seq![
            FileOpView::CopyIfAbsent {
                src: p,
                dst: spec_path_join(ws, spec_file_name(p)->Some_0),
            },
        ],
        None => Seq::empty(),
    }) + c.drives.map_values(|d: DriveView| spec_drive_copy(ws, d)) + (match spec_dir_name(
        spec_host_socket_path(c),
    ) {
        Some(dir) => seq![FileOpView::EnsureDir(dir)],
        None => Seq::empty(),
    })
}

/// Computes the operations of [`spec_create_ops`] for a configuration.
/// Fails with `InvalidInitrdPath` or `InvalidDrivePath` when the initrd or
/// a drive source path has no file name to carry into the workspace.
#[verifier::loop_isolation(false)]
pub fn workspace_ops(config: &Config) -> (r: Result<Vec<FileOp>, Error>)
    ensures
        (r is Ok) == (spec_initrd_ok(config@) && spec_drives_ok(config@.drives)),
        r matches Ok(ops) ==> file_op_views(ops@) == spec_create_ops(config@),
        !spec_initrd_ok(config@) ==> r == Err::<Vec<FileOp>, Error>(Error::InvalidInitrdPath),
        (spec_initrd_ok(config@) && !spec_drives_ok(config@.drives)) ==> r == Err::<
            Vec<FileOp>,
            Error,
        >(Error::InvalidDrivePath),
{
    let ws = config.jailer_cfg().workspace_dir().to_owned();
    let mut ops: Vec<FileOp> = Vec::new();
    ops.push(FileOp::EnsureDir(ws.clone()));
    ops.push(
        FileOp::CopyIfAbsent {
            src: config.src_kernel_image_path().to_owned(),
            dst: config.kernel_image_path(),
        },
    );
    match config.src_initrd_path() {
        Some(p) => {
            let base = match file_name(p) {
                Some(b) => b,
                None => {
                    return Err(Error::InvalidInitrdPath);
                },
            };
            let dst = path_join(ws.as_str(), base.as_str());
            ops.push(FileOp::CopyIfAbsent { src: p.to_owned(), dst });
        },
        None => {},
    }
    let ghost head = file_op_views(ops@);
    proof {
        assert(head =~= spec_create_ops(config@).take(head.len() as int));
    }
    let drives = config.drives();
    let n = drives.len();
    let mut i: usize = 0;
    while i < n
        invariant
            i <= n,
            file_op_views(ops@) == head + config@.drives.take(i as int).map_values(
                |d: DriveView| spec_drive_copy(config@.jailer_cfg.workspace_dir, d),
            ),
            spec_drives_ok(config@.drives.take(i as int)),
        decreases n - i,
    {
        let d = &drives[i];
        let base = match file_name(d.src_path()) {
            Some(b) => b,
            None => {
                proof {
                    assert(config@.drives[i as int].src_path == d@.src_path);
                    assert(!spec_drives_ok(config@.drives));
                }
                return Err(Error::InvalidDrivePath);
            },
        };
        let dst = path_join(ws.as_str(), base.as_str());
        let ghost before = ops@;
        ops.push(FileOp::CopyIfAbsent { src: d.src_path().to_owned(), dst });
        proof {
            assert(d@ == config@.drives[i as int]);
            assert(ops@.last()@ == spec_drive_copy(
                config@.jailer_cfg.workspace_dir,
                config@.drives[i as int],
            ));
            assert(file_op_views(ops@) =~= file_op_views(before).push(ops@.last()@));
            let f = |d: DriveView| spec_drive_copy(config@.jailer_cfg.workspace_dir, d);
            assert(config@.drives.take(i + 1 as int).map_values(f) =~= config@.drives.take(
                i as int,
            ).map_values(f).push(f(config@.drives[i as int])));
            assert(file_op_views(ops@) =~= head + config@.drives.take(i + 1 as int).map_values(f));
            assert(spec_drives_ok(config@.drives.take(i + 1 as int)));
        }
        i = i + 1;
    }
    proof {
        assert(config@.drives.take(n as int) =~= config@.drives);
    }
    let socket = config.host_socket_path();
    match dir_name(socket.as_str()) {
        Some(dir) => {
            let ghost before = ops@;
            ops.push(FileOp::EnsureDir(dir));
            proof {
                assert(file_op_views(ops@) =~= file_op_views(before).push(ops@.last()@));
            }
        },
        None => {},
    }
    proof {
        assert(file_op_views(ops@) =~= spec_create_ops(config@));
    }
    Ok(ops)
}

/// The stale files a start removes first, in order: the control socket,
/// the vsock socket if one is configured, and the `dev` tree the jailer
/// made on an earlier run.
pub open spec fn spec_cleanup_ops(c: ConfigView) -> Seq<CleanupOpView> {
    let ws = c.jailer_cfg.workspace_dir;
    seq![CleanupOpView::RemoveFile(spec_host_socket_path(c))] + (match c.vsock {
        Some(v) => seq![
            CleanupOpView::RemoveFile(
                spec_path_join(ws, crate::strutil::spec_strip_root(v.uds_path)),
            ),
        ],
        None => Seq::empty(),
    }) + seq![CleanupOpView::RemoveDirAll(spec_path_join(ws, "dev"@))]
}

/// Computes the operations of [`spec_cleanup_ops`] for a configuration.
pub fn cleanup_ops(config: &Config) -> (r: Vec<CleanupOp>)
    ensures
        cleanup_op_views(r@) == spec_cleanup_ops(config@),
{
    let ws = config.jailer_cfg().workspace_dir().to_owned();
    let mut ops: Vec<CleanupOp> = Vec::new();
    ops.push(CleanupOp::RemoveFile(config.host_socket_path()));
    match config.vsock_cfg() {
        Some(v) => {
            let stripped = crate::strutil::strip_root(v.uds_path());
            let ghost before = ops@;
            ops.push(CleanupOp::RemoveFile(path_join(ws.as_str(), stripped.as_str())));
            proof {
                assert(cleanup_op_views(ops@) =~= cleanup_op_views(before).push(ops@.last()@));
            }
        },
        None => {},
    }
    let ghost before = ops@;
    ops.push(CleanupOp::RemoveDirAll(path_join(ws.as_str(), "dev")));
    proof {
        assert(cleanup_op_views(ops@) =~= cleanup_op_views(before).push(ops@.last()@));
        assert(cleanup_op_views(ops@) =~= spec_cleanup_ops(config@));
    }
    ops
}

/// A model of the part of the host filesystem the materializer touches:
/// the regular files with their contents, and the set of directories.
#[verifier::ext_equal]
pub struct FsModel {
    /// The regular files, by path, with their contents.
    pub files: Map<Seq<char>, Seq<u8>>,
    /// The directories, by path.
    pub dirs: Set<Seq<char>>,
}

/// What one operation does to the filesystem: a directory is added (or
/// kept), a copy writes the source's contents at the destination unless
/// the destination already exists or the source is missing.
pub open spec fn apply_op(m: FsModel, op: FileOpView) -> FsModel {
    match op {
        FileOpView::EnsureDir(d) => FsModel { dirs: m.dirs.insert(d), ..m },
        FileOpView::CopyIfAbsent { src, dst } => {
            if m.files.contains_key(dst) {
                m
            } else if m.files.contains_key(src) {
                FsModel { files: m.files.insert(dst, m.files[src]), ..m }
            } else {
                m
            }
        },
    }
}

/// The operations applied in order.
pub open spec fn apply_plan(m: FsModel, ops: Seq<FileOpView>) -> FsModel
    decreases ops.len(),
{
    if ops.len() == 0 {
        m
    } else {
        apply_plan(apply_op(m, ops.first()), ops.drop_first())
    }
}

/// Nothing that exists is removed or changed: the old files keep their
/// contents, the old directories stay.
pub open spec fn preserves(m1: FsModel, m2: FsModel) -> bool {
    &&& forall|k: Seq<char>|
        m1.files.contains_key(k) ==> #[trigger] m2.files.contains_key(k) && m2.files[k]
            == m1.files[k]
    &&& forall|d: Seq<char>| m1.dirs.contains(d) ==> #[trigger] m2.dirs.contains(d)
}

/// Every copy's source exists as a file.
pub open spec fn sources_present(m: FsModel, ops: Seq<FileOpView>) -> bool {
    forall|i: int|
        0 <= i < ops.len() ==> match #[trigger] ops[i] {
            FileOpView::CopyIfAbsent { src, dst } => m.files.contains_key(src),
            FileOpView::EnsureDir(d) => true,
        }
}

/// An operation whose effect is already present: applying it changes
/// nothing.
pub open spec fn op_done(m: FsModel, op: FileOpView) -> bool {
    match op {
        FileOpView::EnsureDir(d) => m.dirs.contains(d),
        FileOpView::CopyIfAbsent { src, dst } => m.files.contains_key(dst),
    }
}

proof fn lemma_op_preserves(m: FsModel, op: FileOpView)
    ensures
        preserves(m, apply_op(m, op)),
{
}

proof fn lemma_preserves_trans(m1: FsModel, m2: FsModel, m3: FsModel)
    requires
        preserves(m1, m2),
        preserves(m2, m3),
    ensures
        preserves(m1, m3),
{
}

/// Materialization never removes or changes what exists: files already in
/// place keep their bytes (so their modification times are not touched
/// either — a copy is skipped outright when its destination exists).
pub proof fn lemma_plan_preserves(m: FsModel, ops: Seq<FileOpView>)
    ensures
        preserves(m, apply_plan(m, ops)),
    decreases ops.len(),
{
    if ops.len() == 0 {
    } else {
        let m1 = apply_op(m, ops.first());
        lemma_op_preserves(m, ops.first());
        lemma_plan_preserves(m1, ops.drop_first());
        lemma_preserves_trans(m, m1, apply_plan(m1, ops.drop_first()));
    }
}

proof fn lemma_done_op_is_noop(m: FsModel, op: FileOpView)
    requires
        op_done(m, op),
    ensures
        apply_op(m, op) =~= m,
{
    match op {
        FileOpView::EnsureDir(d) => {
            assert(m.dirs.insert(d) =~= m.dirs);
        },
        FileOpView::CopyIfAbsent { src, dst } => {},
    }
}

proof fn lemma_all_done_plan_is_noop(m: FsModel, ops: Seq<FileOpView>)
    requires
        forall|i: int| 0 <= i < ops.len() ==> op_done(m, #[trigger] ops[i]),
    ensures
        apply_plan(m, ops) =~= m,
    decreases ops.len(),
{
    if ops.len() == 0 {
    } else {
        lemma_done_op_is_noop(m, ops.first());
        assert(apply_op(m, ops.first()) =~= m);
        assert(forall|i: int|
            0 <= i < ops.drop_first().len() ==> op_done(m, #[trigger] ops.drop_first()[i]));
        lemma_all_done_plan_is_noop(m, ops.drop_first());
    }
}

proof fn lemma_plan_settles(m: FsModel, ops: Seq<FileOpView>)
    requires
        sources_present(m, ops),
    ensures
        forall|i: int| 0 <= i < ops.len() ==> op_done(apply_plan(m, ops), #[trigger] ops[i]),
    decreases ops.len(),
{
    if ops.len() == 0 {
    } else {
        let op0 = ops.first();
        let m1 = apply_op(m, op0);
        lemma_op_preserves(m, op0);
        assert(op_done(m1, op0));
        assert(sources_present(m1, ops.drop_first())) by {
            assert(forall|i: int|
                0 <= i < ops.drop_first().len() ==> ops.drop_first()[i] == ops[i + 1]);
        }
        lemma_plan_settles(m1, ops.drop_first());
        lemma_plan_preserves(m1, ops.drop_first());
        assert(preserves(m1, apply_plan(m, ops)));
        assert(op_done(apply_plan(m, ops), op0)) by {
            match op0 {
                FileOpView::EnsureDir(d) => {},
                FileOpView::CopyIfAbsent { src, dst } => {},
            }
        }
        assert forall|i: int| 1 <= i < ops.len() implies op_done(
            apply_plan(m, ops),
            #[trigger] ops[i],
        ) by {
            assert(ops.drop_first()[i - 1] == ops[i]);
            assert(op_done(apply_plan(m1, ops.drop_first()), ops.drop_first()[i - 1]));
            assert(apply_plan(m, ops) == apply_plan(m1, ops.drop_first()));
        }
    }
}

/// Materializing a workspace twice leaves it exactly as materializing it
/// once: when every copy's source exists (a materialization that succeeded
/// read each one), running the same operations again changes nothing.
pub proof fn lemma_create_idempotent(m: FsModel, ops: Seq<FileOpView>)
    requires
        sources_present(m, ops),
    ensures
        apply_plan(apply_plan(m, ops), ops) == apply_plan(m, ops),
{
    lemma_plan_settles(m, ops);
    lemma_all_done_plan_is_noop(apply_plan(m, ops), ops);
}

} // verus!
