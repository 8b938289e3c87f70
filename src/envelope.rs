use vstd::prelude::*;

verus! {

/// The uniform answer of every operation.
pub struct CommandResult {
    pub success: bool,
    pub message: String,
    pub output: Option<String>,
}

/// A snapshot of one service, as a services query reports it.
pub struct ServiceInfo {
    pub name: String,
    pub display_name: String,
    pub status: String,
    pub start_type: String,
}

/// A snapshot of one autorun entry; `location` tells where it was found.
pub struct StartupApp {
    pub name: String,
    pub command: String,
    pub enabled: bool,
    pub location: String,
}

impl CommandResult {
    /// The envelope carries output exactly when it reports success.
    pub open spec fn output_iff_success(&self) -> bool {
        self.output.is_some() <==> self.success
    }

    /// A success that carries `output` under `message`.
    pub fn succeeded(message: String, output: String) -> (r: CommandResult)
        ensures
            r.success,
            r.message@ == message@,
            r.output == Some(output),
    {
        CommandResult { success: true, message, output: Some(output) }
    }

    /// A success without output: a program was launched.
    pub fn launched(message: String) -> (r: CommandResult)
        ensures
            r.success,
            r.message@ == message@,
            r.output.is_none(),
    {
        CommandResult { success: true, message, output: None }
    }

    /// A failure whose message is `label`, a colon and the failure's detail.
    pub fn failed(label: &str, detail: &str) -> (r: CommandResult)
        ensures
            !r.success,
            r.message@ == failure_message(label@, detail@),
            r.output.is_none(),
    {
        let mut message = String::from_str(label);
        message.append(": ");
        message.append(detail);
        CommandResult { success: false, message, output: None }
    }
}

/// The message of a failed operation.
pub open spec fn failure_message(label: Seq<char>, detail: Seq<char>) -> Seq<char> {
    label + ": "@ + detail
}

} // verus!
