//! The actor's action and event surface: every action and event the
//! dispatcher serves, with the shape of its reply or payload and its
//! TypeScript signature.
use vstd::prelude::*;

use crate::text::str_equals;

verus! {

/// The shape of an action reply or an event payload.
#[derive(Debug, Clone, PartialEq, Eq)]
pub enum ReplyShape {
    Unit,
    String,
    Bool,
    Number,
    Uint8Array,
    Array,
    NullableArray,
    Object(Vec<&'static str>),
}

/// One action: its name, the shape of its reply and its TypeScript signature.
#[derive(Debug, Clone)]
pub struct ActionContract {
    pub name: &'static str,
    pub reply_shape: ReplyShape,
    pub ts_signature: &'static str,
}

/// One event: its name, the shape of its payload and its TypeScript signature.
#[derive(Debug, Clone)]
pub struct EventContract {
    pub name: &'static str,
    pub payload_shape: ReplyShape,
    pub ts_signature: &'static str,
}


/// The names of the actor actions, in contract order.
pub open spec fn action_names() -> Seq<Seq<char>> {
    seq![
        "readFile"@,
        "writeFile"@,
        "stat"@,
        "mkdir"@,
        "readdir"@,
        "readdirEntries"@,
        "exists"@,
        "move"@,
        "deleteFile"@,
        "writeFiles"@,
        "readFiles"@,
        "readdirRecursive"@,
        "exec"@,
        "spawn"@,
        "waitProcess"@,
        "killProcess"@,
        "stopProcess"@,
        "listProcesses"@,
        "allProcesses"@,
        "processTree"@,
        "getProcess"@,
        "writeProcessStdin"@,
        "closeProcessStdin"@,
        "openShell"@,
        "writeShell"@,
        "resizeShell"@,
        "closeShell"@,
        "waitShell"@,
        "vmFetch"@,
        "scheduleCron"@,
        "listCronJobs"@,
        "cancelCronJob"@,
        "createSession"@,
        "sendPrompt"@,
        "closeSession"@,
        "listPersistedSessions"@,
        "getSessionEvents"@,
        "respondPermission"@,
        "createSignedPreviewUrl"@,
        "expireSignedPreviewUrl"@,
        "listMounts"@,
        "listSoftware"@,
        "getRuntimeHealth"@,
        "listSessions"@,
        "cancelPrompt"@,
        "listPendingPermissions"@,
    ]
}

/// The names of the actor events, in contract order.
pub open spec fn event_names() -> Seq<Seq<char>> {
    seq![
        "fsChanged"@,
        "sessionEvent"@,
        "permissionRequest"@,
        "permissionResolved"@,
        "agentCrashed"@,
        "vmBooted"@,
        "vmShutdown"@,
        "processOutput"@,
        "processExit"@,
        "shellData"@,
        "shellStderr"@,
        "shellExit"@,
        "cronEvent"@,
    ]
}

/// The actor actions: name, reply shape and TypeScript signature.
pub fn action_contracts() -> (r: Vec<ActionContract>)
    ensures
        r@.len() == action_names().len(),
        forall|i: int| 0 <= i < r@.len() ==> (#[trigger] r@[i]).name@ == action_names()[i],
{
    let mut r: Vec<ActionContract> = Vec::new();
    r.push(ActionContract { name: "readFile", reply_shape: ReplyShape::Uint8Array, ts_signature: "readFile: (c: Ctx, path: string) => Promise<Uint8Array>;" });
    r.push(ActionContract { name: "writeFile", reply_shape: ReplyShape::Unit, ts_signature: "writeFile: (c: Ctx, path: string, content: string | Uint8Array) => Promise<void>;" });
    r.push(ActionContract { name: "stat", reply_shape: ReplyShape::Object(vec!["atimeMs", "birthtimeMs", "blocks", "ctimeMs", "dev", "gid", "ino", "isDirectory", "isSymbolicLink", "mode", "mtimeMs", "nlink", "rdev", "size", "uid"]), ts_signature: "stat: (c: Ctx, path: string) => Promise<VirtualStat>;" });
    r.push(ActionContract { name: "mkdir", reply_shape: ReplyShape::Unit, ts_signature: "mkdir: (c: Ctx, path: string) => Promise<void>;" });
    r.push(ActionContract { name: "readdir", reply_shape: ReplyShape::Array, ts_signature: "readdir: (c: Ctx, path: string) => Promise<string[]>;" });
    r.push(ActionContract { name: "readdirEntries", reply_shape: ReplyShape::NullableArray, ts_signature: "readdirEntries: (c: Ctx, path: string) => Promise<ReaddirEntry[] | null>;" });
    r.push(ActionContract { name: "exists", reply_shape: ReplyShape::Bool, ts_signature: "exists: (c: Ctx, path: string) => Promise<boolean>;" });
    r.push(ActionContract { name: "move", reply_shape: ReplyShape::Unit, ts_signature: "move: (c: Ctx, from: string, to: string) => Promise<void>;" });
    r.push(ActionContract { name: "deleteFile", reply_shape: ReplyShape::Unit, ts_signature: "deleteFile: (c: Ctx, path: string, options?: { recursive?: boolean }) => Promise<void>;" });
    r.push(ActionContract { name: "writeFiles", reply_shape: ReplyShape::Array, ts_signature: "writeFiles: ( c: Ctx, entries: { path: string; content: string | Uint8Array }[], ) => Promise<WriteFileResult[]>;" });
    r.push(ActionContract { name: "readFiles", reply_shape: ReplyShape::Array, ts_signature: "readFiles: (c: Ctx, paths: string[]) => Promise<ReadFileResult[]>;" });
    r.push(ActionContract { name: "readdirRecursive", reply_shape: ReplyShape::Array, ts_signature: "readdirRecursive: (c: Ctx, path: string) => Promise<DirEntry[]>;" });
    r.push(ActionContract { name: "exec", reply_shape: ReplyShape::Object(vec!["exitCode", "stderr", "stdout"]), ts_signature: "exec: ( c: Ctx, command: string, options?: ExecActionOptions, ) => Promise<ExecResult>;" });
    r.push(ActionContract { name: "spawn", reply_shape: ReplyShape::Object(vec!["pid"]), ts_signature: "spawn: ( c: Ctx, command: string, args: string[], options?: SpawnActionOptions, ) => Promise<SpawnedProcess>;" });
    r.push(ActionContract { name: "waitProcess", reply_shape: ReplyShape::Number, ts_signature: "waitProcess: (c: Ctx, pid: number) => Promise<number>;" });
    r.push(ActionContract { name: "killProcess", reply_shape: ReplyShape::Unit, ts_signature: "killProcess: (c: Ctx, pid: number) => Promise<void>;" });
    r.push(ActionContract { name: "stopProcess", reply_shape: ReplyShape::Unit, ts_signature: "stopProcess: (c: Ctx, pid: number) => Promise<void>;" });
    r.push(ActionContract { name: "listProcesses", reply_shape: ReplyShape::Array, ts_signature: "listProcesses: (c: Ctx) => Promise<SpawnedProcessInfo[]>;" });
    r.push(ActionContract { name: "allProcesses", reply_shape: ReplyShape::Array, ts_signature: "allProcesses: (c: Ctx) => Promise<ProcessInfo[]>;" });
    r.push(ActionContract { name: "processTree", reply_shape: ReplyShape::Array, ts_signature: "processTree: (c: Ctx) => Promise<ProcessTreeNode[]>;" });
    r.push(ActionContract { name: "getProcess", reply_shape: ReplyShape::Object(vec!["args", "command", "exitCode", "pid", "running", "startedAt"]), ts_signature: "getProcess: (c: Ctx, pid: number) => Promise<SpawnedProcessInfo>;" });
    r.push(ActionContract { name: "writeProcessStdin", reply_shape: ReplyShape::Unit, ts_signature: "writeProcessStdin: (c: Ctx, pid: number, data: string | Uint8Array) => Promise<void>;" });
    r.push(ActionContract { name: "closeProcessStdin", reply_shape: ReplyShape::Unit, ts_signature: "closeProcessStdin: (c: Ctx, pid: number) => Promise<void>;" });
    r.push(ActionContract { name: "openShell", reply_shape: ReplyShape::Object(vec!["shellId"]), ts_signature: "openShell: (c: Ctx, options?: OpenShellActionOptions) => Promise<OpenShellResult>;" });
    r.push(ActionContract { name: "writeShell", reply_shape: ReplyShape::Unit, ts_signature: "writeShell: (c: Ctx, shellId: string, data: string | Uint8Array) => Promise<void>;" });
    r.push(ActionContract { name: "resizeShell", reply_shape: ReplyShape::Unit, ts_signature: "resizeShell: (c: Ctx, shellId: string, cols: number, rows: number) => Promise<void>;" });
    r.push(ActionContract { name: "closeShell", reply_shape: ReplyShape::Unit, ts_signature: "closeShell: (c: Ctx, shellId: string) => Promise<void>;" });
    r.push(ActionContract { name: "waitShell", reply_shape: ReplyShape::Number, ts_signature: "waitShell: (c: Ctx, shellId: string) => Promise<number>;" });
    r.push(ActionContract { name: "vmFetch", reply_shape: ReplyShape::Object(vec!["body", "headers", "status", "statusText"]), ts_signature: "vmFetch: ( c: Ctx, port: number, url: string, options?: VmFetchOptions, ) => Promise<VmFetchResponse>;" });
    r.push(ActionContract { name: "scheduleCron", reply_shape: ReplyShape::Object(vec!["id"]), ts_signature: "scheduleCron: (c: Ctx, options: SerializableCronJobOptions) => Promise<ScheduledCronJob>;" });
    r.push(ActionContract { name: "listCronJobs", reply_shape: ReplyShape::Array, ts_signature: "listCronJobs: (c: Ctx) => Promise<SerializableCronJobInfo[]>;" });
    r.push(ActionContract { name: "cancelCronJob", reply_shape: ReplyShape::Unit, ts_signature: "cancelCronJob: (c: Ctx, id: string) => Promise<void>;" });
    r.push(ActionContract { name: "createSession", reply_shape: ReplyShape::String, ts_signature: "createSession: (c: Ctx, agentType: string, options?: CreateSessionOptions) => Promise<string>;" });
    r.push(ActionContract { name: "sendPrompt", reply_shape: ReplyShape::Object(vec!["response", "text"]), ts_signature: "sendPrompt: (c: Ctx, sessionId: string, text: string) => Promise<PromptResult>;" });
    r.push(ActionContract { name: "closeSession", reply_shape: ReplyShape::Unit, ts_signature: "closeSession: (c: Ctx, sessionId: string) => Promise<void>;" });
    r.push(ActionContract { name: "listPersistedSessions", reply_shape: ReplyShape::Array, ts_signature: "listPersistedSessions: (c: Ctx) => Promise<PersistedSessionRecord[]>;" });
    r.push(ActionContract { name: "getSessionEvents", reply_shape: ReplyShape::Array, ts_signature: "getSessionEvents: (c: Ctx, sessionId: string) => Promise<PersistedSessionEvent[]>;" });
    r.push(ActionContract { name: "respondPermission", reply_shape: ReplyShape::Unit, ts_signature: "respondPermission: ( c: Ctx, sessionId: string, permissionId: string, reply: PermissionReply, ) => Promise<void>;" });
    r.push(ActionContract { name: "createSignedPreviewUrl", reply_shape: ReplyShape::Object(vec!["expiresAt", "path", "port", "token"]), ts_signature: "createSignedPreviewUrl: (c: Ctx, port: number, ttlSeconds: number) => Promise<SignedPreviewUrl>;" });
    r.push(ActionContract { name: "expireSignedPreviewUrl", reply_shape: ReplyShape::Unit, ts_signature: "expireSignedPreviewUrl: (c: Ctx, token: string) => Promise<void>;" });
    r.push(ActionContract { name: "listMounts", reply_shape: ReplyShape::Array, ts_signature: "listMounts: (c: Ctx) => Promise<MountInfo[]>;" });
    r.push(ActionContract { name: "listSoftware", reply_shape: ReplyShape::Array, ts_signature: "listSoftware: (c: Ctx) => Promise<SoftwareInfo[]>;" });
    r.push(ActionContract { name: "getRuntimeHealth", reply_shape: ReplyShape::Object(vec!["agentExits", "booted", "sessions", "sidecar", "stderrTail", "warnings"]), ts_signature: "getRuntimeHealth: (c: Ctx) => Promise<RuntimeHealth>;" });
    r.push(ActionContract { name: "listSessions", reply_shape: ReplyShape::Array, ts_signature: "listSessions: (c: Ctx) => Promise<LiveSessionInfo[]>;" });
    r.push(ActionContract { name: "cancelPrompt", reply_shape: ReplyShape::Unit, ts_signature: "cancelPrompt: (c: Ctx, sessionId: string) => Promise<void>;" });
    r.push(ActionContract { name: "listPendingPermissions", reply_shape: ReplyShape::Array, ts_signature: "listPendingPermissions: (c: Ctx) => Promise<PendingPermissionInfo[]>;" });
    assert(r@.len() == action_names().len());
    r
}

/// The actor events: name, payload shape and TypeScript signature.
pub fn event_contracts() -> (r: Vec<EventContract>)
    ensures
        r@.len() == event_names().len(),
        forall|i: int| 0 <= i < r@.len() ==> (#[trigger] r@[i]).name@ == event_names()[i],
{
    let mut r: Vec<EventContract> = Vec::new();
    r.push(EventContract { name: "fsChanged", payload_shape: ReplyShape::Object(vec!["dirs", "overflow"]), ts_signature: "fsChanged: FsChangedPayload;" });
    r.push(EventContract { name: "sessionEvent", payload_shape: ReplyShape::Object(vec!["event", "sessionId"]), ts_signature: "sessionEvent: SessionEventPayload;" });
    r.push(EventContract { name: "permissionRequest", payload_shape: ReplyShape::Object(vec!["request", "sessionId"]), ts_signature: "permissionRequest: PermissionRequestPayload;" });
    r.push(EventContract { name: "permissionResolved", payload_shape: ReplyShape::Object(vec!["permissionId", "reply", "sessionId"]), ts_signature: "permissionResolved: PermissionResolvedPayload;" });
    r.push(EventContract { name: "agentCrashed", payload_shape: ReplyShape::Object(vec!["event", "sessionId"]), ts_signature: "agentCrashed: AgentCrashedPayload;" });
    r.push(EventContract { name: "vmBooted", payload_shape: ReplyShape::Object(Vec::new()), ts_signature: "vmBooted: VmBootedPayload;" });
    r.push(EventContract { name: "vmShutdown", payload_shape: ReplyShape::Object(vec!["reason"]), ts_signature: "vmShutdown: VmShutdownPayload;" });
    r.push(EventContract { name: "processOutput", payload_shape: ReplyShape::Object(vec!["data", "pid", "stream"]), ts_signature: "processOutput: ProcessOutputPayload;" });
    r.push(EventContract { name: "processExit", payload_shape: ReplyShape::Object(vec!["exitCode", "pid"]), ts_signature: "processExit: ProcessExitPayload;" });
    r.push(EventContract { name: "shellData", payload_shape: ReplyShape::Object(vec!["data", "shellId"]), ts_signature: "shellData: ShellDataPayload;" });
    r.push(EventContract { name: "shellStderr", payload_shape: ReplyShape::Object(vec!["data", "shellId"]), ts_signature: "shellStderr: ShellDataPayload;" });
    r.push(EventContract { name: "shellExit", payload_shape: ReplyShape::Object(vec!["exitCode", "shellId"]), ts_signature: "shellExit: ShellExitPayload;" });
    r.push(EventContract { name: "cronEvent", payload_shape: ReplyShape::Object(vec!["event"]), ts_signature: "cronEvent: CronEventPayload;" });
    assert(r@.len() == event_names().len());
    r
}

/// The position of the action named `name` among the action contracts.
pub fn find_action(name: &str) -> (r: Option<usize>)
    ensures
        match r {
            Some(i) => i < action_names().len() && action_names()[i as int] == name@
                && forall|j: int| 0 <= j < i ==> action_names()[j] != name@,
            None => forall|j: int| 0 <= j < action_names().len() ==> action_names()[j] != name@,
        },
{
    let contracts = action_contracts();
    let n = contracts.len();
    let mut i: usize = 0;
    while i < n
        invariant
            n == contracts@.len(),
            n == action_names().len(),
            i <= n,
            forall|k: int| 0 <= k < n ==> (#[trigger] contracts@[k]).name@ == action_names()[k],
            forall|j: int| 0 <= j < i ==> action_names()[j] != name@,
        decreases n - i,
    {
        if str_equals(contracts[i].name, name) {
            return Some(i);
        }
        i += 1;
    }
    None
}


} // verus!
