use vstd::prelude::*;

verus! {

/// Whether the NFC worker has a working connection to the PC/SC layer.
#[derive(Debug, Clone, Copy, PartialEq, Eq, Structural)]
pub enum NfcWorkerState {
    Running,
    Stopped,
}

impl NfcWorkerState {
    /// The name of the state.
    pub open spec fn name(self) -> Seq<char> {
        match self {
            NfcWorkerState::Running => "Running"@,
            NfcWorkerState::Stopped => "Stopped"@,
        }
    }
}

/// The log line for a worker state names that state: exactly "NFC state: Running" for a
/// running worker and "NFC state: Stopped" for a stopped one, so the two lines differ.
pub proof fn lemma_state_lines(ws: NfcWorkerState)
    ensures
        ws == NfcWorkerState::Running ==> "NFC state: "@ + ws.name() == "NFC state: Running"@,
        ws == NfcWorkerState::Stopped ==> "NFC state: "@ + ws.name() == "NFC state: Stopped"@,
        "NFC state: "@ + NfcWorkerState::Running.name() != "NFC state: "@
            + NfcWorkerState::Stopped.name(),
{
    reveal_strlit("NFC state: ");
    reveal_strlit("Running");
    reveal_strlit("Stopped");
    reveal_strlit("NFC state: Running");
    reveal_strlit("NFC state: Stopped");
    assert("NFC state: "@ + "Running"@ =~= "NFC state: Running"@);
    assert("NFC state: "@ + "Stopped"@ =~= "NFC state: Stopped"@);
    assert(("NFC state: Running"@)[11] != ("NFC state: Stopped"@)[11]);
}

} // verus!
