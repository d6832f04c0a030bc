//! The typed rc client: the request of each operation, and the rules for the answers.
use std::time::Duration;

use vstd::prelude::*;
use vstd::string::*;

use crate::config::on_windows;
use crate::error::{labelled, Error};
use crate::filter::RcFilter;
use crate::job::JobWait;
use crate::notice::{conflicts_of, SyncConflict};
use crate::text::decimal_text;
use crate::wire::{
    flag_field, leaf_flag, leaf_text, number_field, object_field, push_filter, text_field, Field,
    Leaf, LeafField, RcRequest, Value,
};

verus! {

/// How long an rc request may take, in seconds.
pub const REQUEST_TIMEOUT_SECS: u64 = 30;

/// Typed rc HTTP client of the daemon on one loopback port.
///
/// A client makes requests and does not send them: each operation returns the
/// request to post to the daemon.
#[derive(Debug)]
pub struct RcClient {
    port: u16,
}

/// An item returned by `list_directory`.
#[derive(Debug, Clone)]
pub struct DirectoryItem {
    pub name: String,
    pub is_dir: bool,
}

/// The loopback address of the daemon on `port`.
pub open spec fn loopback(port: u16) -> Seq<char> {
    "127.0.0.1:"@ + crate::text::decimal(port as nat)
}

/// The URL of the rc command `path` of the daemon on `port`.
pub open spec fn rc_url(port: u16, path: Seq<char>) -> Seq<char> {
    "http://"@ + loopback(port) + "/"@ + path
}

/// The request for the rc command `path` with the fields `body`.
pub open spec fn request(
    port: u16,
    path: Seq<char>,
    body: Seq<crate::wire::FieldView>,
) -> crate::wire::RequestView {
    crate::wire::RequestView { url: rc_url(port, path), path, body }
}

/// The fields that name a remote to create: no parameters, and the options `opt`.
pub open spec fn remote_fields(
    name: Seq<char>,
    remote_type: Seq<char>,
    opt: Seq<crate::wire::LeafFieldView>,
) -> Seq<crate::wire::FieldView> {
    seq![
        crate::wire::text_entry("name"@, name),
        crate::wire::text_entry("type"@, remote_type),
        crate::wire::object_entry("parameters"@, seq![]),
        crate::wire::object_entry("opt"@, opt),
    ]
}

/// The fields of a copy job.
pub open spec fn copy_fields(
    src_fs: Seq<char>,
    dst_fs: Seq<char>,
    filter: crate::filter::FilterView,
) -> Seq<crate::wire::FieldView> {
    seq![
        crate::wire::text_entry("srcFs"@, src_fs),
        crate::wire::text_entry("dstFs"@, dst_fs),
        crate::wire::flag_entry("_async"@, true),
    ] + crate::wire::filter_entry(filter)
}

/// The fields of a bisync job. `force` is left out where it is not set.
pub open spec fn bisync_fields(
    path1: Seq<char>,
    path2: Seq<char>,
    resync: bool,
    force: bool,
    filter: crate::filter::FilterView,
) -> Seq<crate::wire::FieldView> {
    seq![
        crate::wire::text_entry("path1"@, path1),
        crate::wire::text_entry("path2"@, path2),
        crate::wire::flag_entry("resync"@, resync),
    ] + (if force {
        seq![crate::wire::flag_entry("force"@, true)]
    } else {
        seq![]
    }) + seq![crate::wire::flag_entry("_async"@, true)] + crate::wire::filter_entry(filter)
}

/// The text of the loopback address of the daemon on `port`.
pub(crate) fn loopback_text(port: u16) -> (text: String)
    ensures
        text@ == loopback(port),
{
    labelled("127.0.0.1:", decimal_text(port as u64).as_str())
}

/// The text of the URL of an rc command.
pub(crate) fn url_text(port: u16, path: &str) -> (text: String)
    ensures
        text@ == rc_url(port, path@),
{
    let mut text = labelled("http://", loopback_text(port).as_str());
    text.append("/");
    text.append(path);
    text
}

impl RcClient {
    /// The port that this client talks to.
    pub closed spec fn port(self) -> u16 {
        self.port
    }

    /// A client of the daemon on `port`.
    pub fn new(port: u16) -> (client: Self)
        ensures
            client.port() == port,
    {
        RcClient { port }
    }

    /// The URL of an rc command.
    pub fn url(&self, path: &str) -> (url: String)
        ensures
            url@ == rc_url(self.port(), path@),
    {
        url_text(self.port, path)
    }

    /// The request for an rc command.
    fn post(&self, path: &str, body: Vec<Field>) -> (req: RcRequest)
        ensures
            req@ == request(self.port(), path@, crate::wire::fields_view(body@)),
            req.body == body,
            req.path@ == path@,
    {
        RcRequest { url: self.url(path), path: path.to_owned(), body }
    }

    /// The request that starts an async `sync/copy` job (upload-only).
    ///
    /// `src_fs` and `dst_fs` are rclone fs paths, e.g. `"/local/path"` or
    /// `"remote:subfolder"`. `filters` is a list of `--filter` patterns to
    /// exclude volatile files (e.g. `"- index.sqlite*"`).
    pub fn copy_async(&self, src_fs: &str, dst_fs: &str, filters: Vec<String>) -> (req: RcRequest)
        ensures
            req@ == request(
                self.port(),
                "sync/copy"@,
                copy_fields(
                    src_fs@,
                    dst_fs@,
                    crate::filter::filter_of(crate::text::texts_view(filters@)),
                ),
            ),
            req.path@ == "sync/copy"@,
            forall|i: int|
                0 <= i < req.body@.len() ==> {
                    &&& (#[trigger] req.body@[i]).key@ == "srcFs"@ ==> (req.body@[i].value matches Value::Leaf(
                        Leaf::Text(text),
                    ) && text@ == src_fs@)
                    &&& req.body@[i].key@ == "dstFs"@ ==> (req.body@[i].value matches Value::Leaf(
                        Leaf::Text(text),
                    ) && text@ == dst_fs@)
                    &&& req.body@[i].key@ == "_async"@ ==> req.body@[i].value == Value::Leaf(
                        Leaf::Flag(true),
                    )
                },
    {
        let mut body: Vec<Field> = Vec::new();
        body.push(text_field("srcFs", src_fs));
        body.push(text_field("dstFs", dst_fs));
        body.push(flag_field("_async", true));
        assert(crate::wire::fields_view(body@) =~= seq![
            crate::wire::text_entry("srcFs"@, src_fs@),
            crate::wire::text_entry("dstFs"@, dst_fs@),
            crate::wire::flag_entry("_async"@, true),
        ]);
        push_filter(&mut body, RcFilter::from_lines(filters.as_slice()));
        proof {
            keys_are_apart();
            let filter = crate::filter::filter_of(crate::text::texts_view(filters@));
            let fields = copy_fields(src_fs@, dst_fs@, filter);
            assert(crate::wire::fields_view(body@) == fields);
            assert forall|i: int| 0 <= i < body@.len() implies {
                &&& (#[trigger] body@[i]).key@ == "srcFs"@ ==> (body@[i].value matches Value::Leaf(
                    Leaf::Text(text),
                ) && text@ == src_fs@)
                &&& body@[i].key@ == "dstFs"@ ==> (body@[i].value matches Value::Leaf(
                    Leaf::Text(text),
                ) && text@ == dst_fs@)
                &&& body@[i].key@ == "_async"@ ==> body@[i].value == Value::Leaf(Leaf::Flag(true))
            } by {
                assert(body@[i]@ == fields[i]);
                copy_request_says_what_was_asked(src_fs@, dst_fs@, filter, i);
            }
        }
        self.post("sync/copy", body)
    }

    /// The request that starts an async `sync/bisync` job.
    ///
    /// Set `resync = true` for the first sync of a (path1, path2) pair or when
    /// the baseline is missing. `force = true` overrides the all-files-changed
    /// safety abort; where it is `false` the field is left out.
    pub fn bisync_async(
        &self,
        path1: &str,
        path2: &str,
        resync: bool,
        force: bool,
        filters: Vec<String>,
    ) -> (req: RcRequest)
        ensures
            req@ == request(
                self.port(),
                "sync/bisync"@,
                bisync_fields(
                    path1@,
                    path2@,
                    resync,
                    force,
                    crate::filter::filter_of(crate::text::texts_view(filters@)),
                ),
            ),
            req.path@ == "sync/bisync"@,
            forall|i: int|
                0 <= i < req.body@.len() ==> {
                    &&& (#[trigger] req.body@[i]).key@ == "path1"@ ==> (req.body@[i].value matches Value::Leaf(
                        Leaf::Text(text),
                    ) && text@ == path1@)
                    &&& req.body@[i].key@ == "path2"@ ==> (req.body@[i].value matches Value::Leaf(
                        Leaf::Text(text),
                    ) && text@ == path2@)
                    &&& req.body@[i].key@ == "resync"@ ==> req.body@[i].value == Value::Leaf(
                        Leaf::Flag(resync),
                    )
                    &&& req.body@[i].key@ == "force"@ ==> force && req.body@[i].value
                        == Value::Leaf(Leaf::Flag(true))
                    &&& req.body@[i].key@ == "_async"@ ==> req.body@[i].value == Value::Leaf(
                        Leaf::Flag(true),
                    )
                },
    {
        let mut body: Vec<Field> = Vec::new();
        body.push(text_field("path1", path1));
        body.push(text_field("path2", path2));
        body.push(flag_field("resync", resync));
        if force {
            body.push(flag_field("force", true));
        }
        body.push(flag_field("_async", true));
        assert(crate::wire::fields_view(body@) =~= seq![
            crate::wire::text_entry("path1"@, path1@),
            crate::wire::text_entry("path2"@, path2@),
            crate::wire::flag_entry("resync"@, resync),
        ] + (if force {
            seq![crate::wire::flag_entry("force"@, true)]
        } else {
            seq![]
        }) + seq![crate::wire::flag_entry("_async"@, true)]);
        push_filter(&mut body, RcFilter::from_lines(filters.as_slice()));
        proof {
            keys_are_apart();
            let filter = crate::filter::filter_of(crate::text::texts_view(filters@));
            let fields = bisync_fields(path1@, path2@, resync, force, filter);
            assert(crate::wire::fields_view(body@) == fields);
            assert forall|i: int| 0 <= i < body@.len() implies {
                &&& (#[trigger] body@[i]).key@ == "path1"@ ==> (body@[i].value matches Value::Leaf(
                    Leaf::Text(text),
                ) && text@ == path1@)
                &&& body@[i].key@ == "path2"@ ==> (body@[i].value matches Value::Leaf(
                    Leaf::Text(text),
                ) && text@ == path2@)
                &&& body@[i].key@ == "resync"@ ==> body@[i].value == Value::Leaf(
                    Leaf::Flag(resync),
                )
                &&& body@[i].key@ == "force"@ ==> force && body@[i].value == Value::Leaf(
                    Leaf::Flag(true),
                )
                &&& body@[i].key@ == "_async"@ ==> body@[i].value == Value::Leaf(Leaf::Flag(true))
            } by {
                assert(body@[i]@ == fields[i]);
                bisync_request_says_what_was_asked(path1@, path2@, resync, force, filter, i);
            }
        }
        self.post("sync/bisync", body)
    }

    /// A wait that polls `job/status` until the job is finished or `timeout` has run
    /// out.
    pub fn wait_for_job(&self, jobid: u64, poll_interval: Duration, timeout: Duration) -> (wait:
        JobWait)
        ensures
            wait == (JobWait { jobid, poll_interval, timeout }),
    {
        JobWait { jobid, poll_interval, timeout }
    }

    /// The request for the status of a job.
    pub fn job_status(&self, jobid: u64) -> (req: RcRequest)
        ensures
            req@ == request(
                self.port(),
                "job/status"@,
                seq![crate::wire::number_entry("jobid"@, jobid)],
            ),
    {
        let mut body: Vec<Field> = Vec::new();
        body.push(number_field("jobid", jobid));
        assert(crate::wire::fields_view(body@) =~= seq![
            crate::wire::number_entry("jobid"@, jobid),
        ]);
        self.post("job/status", body)
    }

    /// The request that creates a remote in nonInteractive mode (first step of the
    /// configuration dialogue). The answer is the question to answer next, or an
    /// empty state when done.
    pub fn config_create_start(&self, name: &str, remote_type: &str) -> (req: RcRequest)
        ensures
            req@ == request(
                self.port(),
                "config/create"@,
                remote_fields(
                    name@,
                    remote_type@,
                    seq![crate::wire::flag_leaf("nonInteractive"@, true)],
                ),
            ),
    {
        let mut opt: Vec<LeafField> = Vec::new();
        opt.push(leaf_flag("nonInteractive", true));
        assert(crate::wire::leaf_fields_view(opt@) =~= seq![
            crate::wire::flag_leaf("nonInteractive"@, true),
        ]);
        self.post("config/create", remote_body(name, remote_type, opt))
    }

    /// The request that continues the configuration dialogue with a given answer.
    pub fn config_create_continue(
        &self,
        name: &str,
        remote_type: &str,
        state: &str,
        result: &str,
    ) -> (req: RcRequest)
        ensures
            req@ == request(
                self.port(),
                "config/create"@,
                remote_fields(
                    name@,
                    remote_type@,
                    seq![
                        crate::wire::flag_leaf("nonInteractive"@, true),
                        crate::wire::flag_leaf("continue"@, true),
                        crate::wire::text_leaf("state"@, state@),
                        crate::wire::text_leaf("result"@, result@),
                    ],
                ),
            ),
    {
        let mut opt: Vec<LeafField> = Vec::new();
        opt.push(leaf_flag("nonInteractive", true));
        opt.push(leaf_flag("continue", true));
        opt.push(leaf_text("state", state));
        opt.push(leaf_text("result", result));
        assert(crate::wire::leaf_fields_view(opt@) =~= seq![
            crate::wire::flag_leaf("nonInteractive"@, true),
            crate::wire::flag_leaf("continue"@, true),
            crate::wire::text_leaf("state"@, state@),
            crate::wire::text_leaf("result"@, result@),
        ]);
        self.post("config/create", remote_body(name, remote_type, opt))
    }

    /// The request that deletes a remote by name, removing its stored credentials.
    pub fn config_delete(&self, name: &str) -> (req: RcRequest)
        ensures
            req@ == request(
                self.port(),
                "config/delete"@,
                seq![crate::wire::text_entry("name"@, name@)],
            ),
    {
        let mut body: Vec<Field> = Vec::new();
        body.push(text_field("name", name));
        assert(crate::wire::fields_view(body@) =~= seq![
            crate::wire::text_entry("name"@, name@),
        ]);
        self.post("config/delete", body)
    }

    /// The request for the configured remote names.
    pub fn list_remotes(&self) -> (req: RcRequest)
        ensures
            req@ == request(self.port(), "config/listremotes"@, seq![]),
    {
        let body: Vec<Field> = Vec::new();
        assert(crate::wire::fields_view(body@) =~= seq![]);
        self.post("config/listremotes", body)
    }

    /// The request for the items in a remote directory (one level, non-recursive).
    ///
    /// `fs` is a rclone fs path, e.g. `"remote:base"`. The answer goes through
    /// [`RcClient::listing`].
    pub fn list_directory(&self, fs: &str) -> (req: RcRequest)
        ensures
            req@ == request(
                self.port(),
                "operations/list"@,
                seq![
                    crate::wire::text_entry("fs"@, fs@),
                    crate::wire::text_entry("remote"@, ""@),
                ],
            ),
    {
        self.post("operations/list", fs_body(fs))
    }

    /// The items that the answer to [`RcClient::list_directory`] amounts to: a
    /// directory that does not exist yet (404 / remote error) is an empty list.
    pub fn listing(answer: Result<Vec<DirectoryItem>, Error>) -> (items: Result<
        Vec<DirectoryItem>,
        Error,
    >)
        ensures
            answer matches Err(Error::Rc(_)) ==> (items matches Ok(list) && list@.len() == 0),
            !(answer matches Err(Error::Rc(_))) ==> items == answer,
    {
        match answer {
            Ok(list) => Ok(list),
            Err(Error::Rc(_)) => Ok(Vec::new()),
            Err(e) => Err(e),
        }
    }

    /// The request that creates a remote directory (and parents). `fs` is the full
    /// rclone fs path, e.g. `"remote:base/Project"`. Needed before a bisync
    /// `--resync`, which aborts if its path2 doesn't exist.
    pub fn mkdir(&self, fs: &str) -> (req: RcRequest)
        ensures
            req@ == request(
                self.port(),
                "operations/mkdir"@,
                seq![
                    crate::wire::text_entry("fs"@, fs@),
                    crate::wire::text_entry("remote"@, ""@),
                ],
            ),
    {
        self.post("operations/mkdir", fs_body(fs))
    }

    /// The request that copies a single file one-way via `operations/copyfile`. Used
    /// to push a local-authoritative file (e.g. `project.json`) to the remote without
    /// bidirectional conflict semantics.
    ///
    /// `src_fs`/`dst_fs` are rclone fs roots (e.g. a local dir or `remote:base`);
    /// `src_remote`/`dst_remote` are the file paths within them.
    pub fn copy_file(
        &self,
        src_fs: &str,
        src_remote: &str,
        dst_fs: &str,
        dst_remote: &str,
    ) -> (req: RcRequest)
        ensures
            req@ == request(
                self.port(),
                "operations/copyfile"@,
                seq![
                    crate::wire::text_entry("srcFs"@, src_fs@),
                    crate::wire::text_entry("srcRemote"@, src_remote@),
                    crate::wire::text_entry("dstFs"@, dst_fs@),
                    crate::wire::text_entry("dstRemote"@, dst_remote@),
                ],
            ),
    {
        let mut body: Vec<Field> = Vec::new();
        body.push(text_field("srcFs", src_fs));
        body.push(text_field("srcRemote", src_remote));
        body.push(text_field("dstFs", dst_fs));
        body.push(text_field("dstRemote", dst_remote));
        assert(crate::wire::fields_view(body@) =~= seq![
            crate::wire::text_entry("srcFs"@, src_fs@),
            crate::wire::text_entry("srcRemote"@, src_remote@),
            crate::wire::text_entry("dstFs"@, dst_fs@),
            crate::wire::text_entry("dstRemote"@, dst_remote@),
        ]);
        self.post("operations/copyfile", body)
    }

    /// Parse conflict pairs from a bisync job output string.
    ///
    /// Bisync emits lines like:
    ///   `"- Path1    Renaming Path1 copy   - /full/path/file.txt.conflict1"`
    /// This extracts the relative file path of each conflicting pair. File names are cut
    /// out of paths as the current platform does.
    pub fn parse_conflicts(output: &str, path1_root: &str) -> (list: Vec<SyncConflict>)
        ensures
            exists|windows: bool| #[trigger]
                crate::config::is_platform(windows) && crate::notice::conflicts_view(list@)
                    == crate::notice::conflicts_in(output@, path1_root@, windows),
    {
        let windows = on_windows();
        conflicts_of(output, path1_root, windows)
    }
}

/// The body of a request that creates a remote.
fn remote_body(name: &str, remote_type: &str, opt: Vec<LeafField>) -> (body: Vec<Field>)
    ensures
        crate::wire::fields_view(body@) == remote_fields(
            name@,
            remote_type@,
            crate::wire::leaf_fields_view(opt@),
        ),
{
    let ghost options = crate::wire::leaf_fields_view(opt@);
    let parameters: Vec<LeafField> = Vec::new();
    assert(crate::wire::leaf_fields_view(parameters@) =~= seq![]);
    let mut body: Vec<Field> = Vec::new();
    body.push(text_field("name", name));
    body.push(text_field("type", remote_type));
    body.push(object_field("parameters", parameters));
    body.push(object_field("opt", opt));
    assert(crate::wire::fields_view(body@) =~= remote_fields(name@, remote_type@, options));
    body
}

/// The body of a request about the root of a rclone fs.
fn fs_body(fs: &str) -> (body: Vec<Field>)
    ensures
        crate::wire::fields_view(body@) == seq![
            crate::wire::text_entry("fs"@, fs@),
            crate::wire::text_entry("remote"@, ""@),
        ],
{
    let mut body: Vec<Field> = Vec::new();
    body.push(text_field("fs", fs));
    body.push(text_field("remote", ""));
    body
}

/// `key` is the key of one of the fields.
pub open spec fn has_key(fields: Seq<crate::wire::FieldView>, key: Seq<char>) -> bool {
    exists|i: int| 0 <= i < fields.len() && (#[trigger] fields[i]).key == key
}

/// The rules of a job go under `_filter`, and there only: the key is there just where some
/// filter line has text, and there is never a top-level `filter`, which rclone would
/// silently ignore.
pub proof fn rules_go_under_the_filter_key(
    a: Seq<char>,
    b: Seq<char>,
    resync: bool,
    force: bool,
    lines: Seq<Seq<char>>,
)
    ensures
        ({
            let filter = crate::filter::filter_of(lines);
            let some_text = exists|i: int|
                0 <= i < lines.len() && crate::text::trim(#[trigger] lines[i]).len() > 0;
            &&& has_key(copy_fields(a, b, filter), "_filter"@) <==> some_text
            &&& has_key(bisync_fields(a, b, resync, force, filter), "_filter"@) <==> some_text
            &&& !has_key(copy_fields(a, b, filter), "filter"@)
            &&& !has_key(bisync_fields(a, b, resync, force, filter), "filter"@)
        }),
{
    reveal_strlit("srcFs");
    reveal_strlit("dstFs");
    reveal_strlit("path1");
    reveal_strlit("path2");
    reveal_strlit("resync");
    reveal_strlit("force");
    reveal_strlit("_async");
    reveal_strlit("_filter");
    reveal_strlit("filter");
    let filter = crate::filter::filter_of(lines);
    crate::filter::filter_is_empty_without_text(lines);
    assert("_filter"@.len() == 7 && "filter"@.len() == 6);
    assert("resync"@[0] == 'r' && "filter"@[0] == 'f');
    assert("_async"@[0] == '_');
    assert(filter != crate::filter::no_rules() ==> crate::wire::filter_entry(filter)[0].key
        == "_filter"@);
    let copy = copy_fields(a, b, filter);
    let bisync = bisync_fields(a, b, resync, force, filter);
    if filter != crate::filter::no_rules() {
        assert(copy[copy.len() - 1].key == "_filter"@);
        assert(bisync[bisync.len() - 1].key == "_filter"@);
    }
}

/// A refusal by the rc API is told apart from a failure to reach it: whatever the answer,
/// it is an rc error, which makes the listing of a directory empty.
pub proof fn refusals_are_rc_errors(error: Error, path: Seq<char>, answer: Seq<char>)
    requires
        error@ == crate::wire::rc_error(path, answer),
    ensures
        error is Rc,
{
}

/// A request goes to the loopback port of the client, to the command that it is for, with
/// the body that it is given.
pub proof fn requests_go_to_the_daemon(
    port: u16,
    path: Seq<char>,
    body: Seq<crate::wire::FieldView>,
)
    ensures
        request(port, path, body).url == "http://"@ + ("127.0.0.1:"@ + crate::text::decimal(
            port as nat,
        )) + "/"@ + path,
        request(port, path, body).path == path,
        request(port, path, body).body == body,
        rc_url(port, path) == "http://"@ + ("127.0.0.1:"@ + crate::text::decimal(port as nat))
            + "/"@ + path,
        loopback(port) == "127.0.0.1:"@ + crate::text::decimal(port as nat),
{
}

/// The keys of job requests are all different.
proof fn keys_are_apart()
    ensures
        "srcFs"@ != "dstFs"@,
        "srcFs"@ != "_async"@,
        "srcFs"@ != "_filter"@,
        "dstFs"@ != "_async"@,
        "dstFs"@ != "_filter"@,
        "_async"@ != "_filter"@,
        "path1"@ != "path2"@,
        "path1"@ != "resync"@,
        "path1"@ != "force"@,
        "path1"@ != "_async"@,
        "path1"@ != "_filter"@,
        "path2"@ != "resync"@,
        "path2"@ != "force"@,
        "path2"@ != "_async"@,
        "path2"@ != "_filter"@,
        "resync"@ != "force"@,
        "resync"@ != "_async"@,
        "resync"@ != "_filter"@,
        "force"@ != "_async"@,
        "force"@ != "_filter"@,
{
    reveal_strlit("srcFs");
    reveal_strlit("dstFs");
    reveal_strlit("path1");
    reveal_strlit("path2");
    reveal_strlit("resync");
    reveal_strlit("force");
    reveal_strlit("_async");
    reveal_strlit("_filter");
    assert("srcFs"@.len() == 5 && "dstFs"@.len() == 5 && "path1"@.len() == 5);
    assert("path2"@.len() == 5 && "force"@.len() == 5 && "resync"@.len() == 6);
    assert("_async"@.len() == 6 && "_filter"@.len() == 7);
    assert("srcFs"@[0] == 's' && "dstFs"@[0] == 'd');
    assert("path1"@[4] == '1' && "path2"@[4] == '2' && "force"@[4] == 'e');
    assert("resync"@[0] == 'r' && "_async"@[0] == '_');
}

/// A copy request says what was asked for, key by key: the source, the destination, that it
/// runs as a job, and the filter where there is one; and nothing else.
pub proof fn copy_request_says_what_was_asked(
    src_fs: Seq<char>,
    dst_fs: Seq<char>,
    filter: crate::filter::FilterView,
    i: int,
)
    ensures
        ({
            let fields = copy_fields(src_fs, dst_fs, filter);
            let rules = crate::wire::ValueView::Object(crate::wire::filter_fields(filter));
            let some = filter.include_rule.len() > 0 || filter.exclude_rule.len() > 0;
            &&& exists|k: int| 0 <= k < fields.len() && (#[trigger] fields[k]).key == "srcFs"@
            &&& exists|k: int| 0 <= k < fields.len() && (#[trigger] fields[k]).key == "dstFs"@
            &&& exists|k: int| 0 <= k < fields.len() && (#[trigger] fields[k]).key == "_async"@
            &&& some <==> exists|k: int|
                0 <= k < fields.len() && (#[trigger] fields[k]).key == "_filter"@
            &&& fields.len() == if some {
                4nat
            } else {
                3nat
            }
            &&& 0 <= i < fields.len() ==> {
                let value = fields[i].value;
                ||| fields[i].key == "srcFs"@ && value == crate::wire::ValueView::Leaf(
                    crate::wire::LeafView::Text(src_fs),
                )
                ||| fields[i].key == "dstFs"@ && value == crate::wire::ValueView::Leaf(
                    crate::wire::LeafView::Text(dst_fs),
                )
                ||| fields[i].key == "_async"@ && value == crate::wire::ValueView::Leaf(
                    crate::wire::LeafView::Flag(true),
                )
                ||| fields[i].key == "_filter"@ && value == rules
            }
        }),
{
    keys_are_apart();
    crate::wire::every_rule_is_sent(filter);
    let fields = copy_fields(src_fs, dst_fs, filter);
    assert(fields[0].key == "srcFs"@);
    assert(fields[1].key == "dstFs"@);
    assert(fields[2].key == "_async"@);
    if filter.include_rule.len() > 0 || filter.exclude_rule.len() > 0 {
        assert(fields[3].key == "_filter"@);
    }
}

/// A bisync request says what was asked for, key by key: both paths, whether to resync, that
/// it is forced just where it is, that it runs as a job, and the filter where there is one;
/// and nothing else.
pub proof fn bisync_request_says_what_was_asked(
    path1: Seq<char>,
    path2: Seq<char>,
    resync: bool,
    force: bool,
    filter: crate::filter::FilterView,
    i: int,
)
    ensures
        ({
            let fields = bisync_fields(path1, path2, resync, force, filter);
            let rules = crate::wire::ValueView::Object(crate::wire::filter_fields(filter));
            let some = filter.include_rule.len() > 0 || filter.exclude_rule.len() > 0;
            &&& exists|k: int| 0 <= k < fields.len() && (#[trigger] fields[k]).key == "path1"@
            &&& exists|k: int| 0 <= k < fields.len() && (#[trigger] fields[k]).key == "path2"@
            &&& exists|k: int| 0 <= k < fields.len() && (#[trigger] fields[k]).key == "resync"@
            &&& exists|k: int| 0 <= k < fields.len() && (#[trigger] fields[k]).key == "_async"@
            &&& force <==> exists|k: int|
                0 <= k < fields.len() && (#[trigger] fields[k]).key == "force"@
            &&& some <==> exists|k: int|
                0 <= k < fields.len() && (#[trigger] fields[k]).key == "_filter"@
            &&& fields.len() == 4 + (if force {
                1int
            } else {
                0int
            }) + (if some {
                1int
            } else {
                0int
            })
            &&& 0 <= i < fields.len() ==> {
                let value = fields[i].value;
                ||| fields[i].key == "path1"@ && value == crate::wire::ValueView::Leaf(
                    crate::wire::LeafView::Text(path1),
                )
                ||| fields[i].key == "path2"@ && value == crate::wire::ValueView::Leaf(
                    crate::wire::LeafView::Text(path2),
                )
                ||| fields[i].key == "resync"@ && value == crate::wire::ValueView::Leaf(
                    crate::wire::LeafView::Flag(resync),
                )
                ||| fields[i].key == "force"@ && value == crate::wire::ValueView::Leaf(
                    crate::wire::LeafView::Flag(true),
                )
                ||| fields[i].key == "_async"@ && value == crate::wire::ValueView::Leaf(
                    crate::wire::LeafView::Flag(true),
                )
                ||| fields[i].key == "_filter"@ && value == rules
            }
        }),
{
    keys_are_apart();
    crate::wire::every_rule_is_sent(filter);
    let fields = bisync_fields(path1, path2, resync, force, filter);
    assert(fields[0].key == "path1"@);
    assert(fields[1].key == "path2"@);
    assert(fields[2].key == "resync"@);
    if force {
        assert(fields[3].key == "force"@);
        assert(fields[4].key == "_async"@);
    } else {
        assert(fields[3].key == "_async"@);
    }
    if filter.include_rule.len() > 0 || filter.exclude_rule.len() > 0 {
        assert(fields[fields.len() - 1].key == "_filter"@);
    }
}

/// A request that creates a remote names it and its type, gives no parameters, and carries
/// the options; and nothing else.
pub proof fn remote_request_says_what_was_asked(
    name: Seq<char>,
    remote_type: Seq<char>,
    opt: Seq<crate::wire::LeafFieldView>,
)
    ensures
        ({
            let fields = remote_fields(name, remote_type, opt);
            &&& fields.len() == 4
            &&& fields[0].key == "name"@ && fields[0].value == crate::wire::ValueView::Leaf(
                crate::wire::LeafView::Text(name),
            )
            &&& fields[1].key == "type"@ && fields[1].value == crate::wire::ValueView::Leaf(
                crate::wire::LeafView::Text(remote_type),
            )
            &&& fields[2].key == "parameters"@ && fields[2].value
                == crate::wire::ValueView::Object(Seq::empty())
            &&& fields[3].key == "opt"@ && fields[3].value == crate::wire::ValueView::Object(opt)
        }),
{
}

/// Every filter line with text is sent: there are as many patterns under `IncludeRule` and
/// `ExcludeRule` together as there are such lines.
pub proof fn every_filter_line_is_sent(lines: Seq<Seq<char>>, i: int, j: int)
    ensures
        ({
            let fields = crate::wire::filter_fields(crate::filter::filter_of(lines));
            0 <= i < fields.len() && 0 <= j < fields.len() && fields[i].key == "IncludeRule"@
                && fields[j].key == "ExcludeRule"@ ==> (fields[i].value matches crate::wire::LeafView::Texts(
                includes,
            ) && (fields[j].value matches crate::wire::LeafView::Texts(excludes) && includes.len()
                + excludes.len() == crate::filter::lines_with_text(lines)))
        }),
        ({
            let fields = crate::wire::filter_fields(crate::filter::filter_of(lines));
            fields.len() == 1 ==> (fields[0].value matches crate::wire::LeafView::Texts(rules)
                && rules.len() == crate::filter::lines_with_text(lines))
        }),
        crate::filter::lines_with_text(lines) > 0 ==> crate::wire::filter_fields(
            crate::filter::filter_of(lines),
        ).len() > 0,
{
    reveal_strlit("IncludeRule");
    reveal_strlit("ExcludeRule");
    assert("IncludeRule"@[0] == 'I');
    assert("ExcludeRule"@[0] == 'E');
    crate::filter::every_line_counts_once(lines);
    crate::wire::every_rule_is_sent(crate::filter::filter_of(lines));
}

/// An rc request may take half a minute.
pub proof fn requests_may_take_half_a_minute()
    ensures
        REQUEST_TIMEOUT_SECS == 30,
{
}

} // verus!
