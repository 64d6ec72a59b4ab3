//! The qualification of a device: cases in order, each step by step, until one
//! fails or all have passed.
use crate::bytes::{copied, copied_range, read_u32, u32_at};
use crate::cases::{case_step, case_steps};
use crate::host::{
    Credentials, CredentialsModel, Failure, FailureModel, HostAnswers, HostHalt, HostHaltModel,
    HostQuestion, HostReply, QuestionModel,
};
use crate::scenario::{data_models, perform, performed, Sessions, SessionsModel, Step, StepModel};
use vstd::prelude::*;

verus! {

/// How much of a device is qualified.
#[derive(Clone, Copy, Debug, PartialEq, Eq, Structural)]
pub enum Profile {
    /// Read-only checks of protocol and framing; safe for an unknown device.
    Smoke,
    /// Authenticated checks too, with temporary objects that are deleted.
    Managed,
    /// Managed checks and the additions to protocol and algorithms.
    Extensions,
    /// Managed checks and lasting changes to the audit, for disposable devices.
    Ephemeral,
}

/// A case of a qualification.
#[derive(Clone, Copy, Debug, PartialEq, Eq, Structural)]
pub enum Case {
    Malformed,
    Echo,
    Identity,
    PublicKey,
    Boundary,
    Session,
    Opaque,
    Authorization,
    Asymmetric,
    Options,
    Negative,
    Hmac,
    Aes,
    Wrapping,
    EcSigning,
    Rsa,
    RsaWrapping,
    Agreement,
    Otp,
    Attestation,
    X25519,
    Prefixed,
    Audit,
    ForceAudit,
}

impl Case {
    /// The name of a case.
    pub open spec fn title(self) -> Seq<char> {
        match self {
            Case::Malformed => "malformed and unknown frames"@,
            Case::Echo => "plain echo"@,
            Case::Identity => "device identity"@,
            Case::PublicKey => "device public key"@,
            Case::Boundary => "plain session boundary"@,
            Case::Session => "symmetric authenticated session"@,
            Case::Opaque => "opaque object lifecycle"@,
            Case::Authorization => "authorization capabilities, delegation, and domains"@,
            Case::Asymmetric => "asymmetric authentication and session snapshot"@,
            Case::Options => "option inventory and validation"@,
            Case::Negative => "authenticated negative command matrix"@,
            Case::Hmac => "HMAC-SHA-256 known answer and verification"@,
            Case::Aes => "AES known answers and mode round trips"@,
            Case::Wrapping => "authenticated data and object wrapping"@,
            Case::EcSigning => "official EC curve signing matrix"@,
            Case::Rsa => "RSA signing and decryption"@,
            Case::RsaWrapping => "RSA-AES wrapped objects and key material"@,
            Case::Agreement => "Ed25519 signing and P-256 ECDH"@,
            Case::Otp => "Yubico OTP AEAD known credential"@,
            Case::Attestation => "attestation binds the generated public key"@,
            Case::X25519 => "X25519 key agreement"@,
            Case::Prefixed => "prefixed ECDH KDF"@,
            Case::Audit => "audit logs inner commands but never Session Message"@,
            Case::ForceAudit => "force audit rejects commands when the log is full"@,
        }
    }

    /// Names a case.
    pub fn name(self) -> (name: &'static str)
        ensures
            name@ == self.title(),
    {
        match self {
            Case::Malformed => "malformed and unknown frames",
            Case::Echo => "plain echo",
            Case::Identity => "device identity",
            Case::PublicKey => "device public key",
            Case::Boundary => "plain session boundary",
            Case::Session => "symmetric authenticated session",
            Case::Opaque => "opaque object lifecycle",
            Case::Authorization => "authorization capabilities, delegation, and domains",
            Case::Asymmetric => "asymmetric authentication and session snapshot",
            Case::Options => "option inventory and validation",
            Case::Negative => "authenticated negative command matrix",
            Case::Hmac => "HMAC-SHA-256 known answer and verification",
            Case::Aes => "AES known answers and mode round trips",
            Case::Wrapping => "authenticated data and object wrapping",
            Case::EcSigning => "official EC curve signing matrix",
            Case::Rsa => "RSA signing and decryption",
            Case::RsaWrapping => "RSA-AES wrapped objects and key material",
            Case::Agreement => "Ed25519 signing and P-256 ECDH",
            Case::Otp => "Yubico OTP AEAD known credential",
            Case::Attestation => "attestation binds the generated public key",
            Case::X25519 => "X25519 key agreement",
            Case::Prefixed => "prefixed ECDH KDF",
            Case::Audit => "audit logs inner commands but never Session Message",
            Case::ForceAudit => "force audit rejects commands when the log is full",
        }
    }

    /// Whether a case can do without credentials.
    pub open spec fn is_smoke(self) -> bool {
        self is Malformed || self is Echo || self is Identity || self is PublicKey
            || self is Boundary
    }

    /// Tells whether a case can do without credentials.
    fn smoke(self) -> (smoke: bool)
        ensures
            smoke == self.is_smoke(),
    {
        matches!(
            self,
            Case::Malformed | Case::Echo | Case::Identity | Case::PublicKey | Case::Boundary
        )
    }
}

impl Profile {
    /// The case of a profile at a place.
    pub open spec fn case_at(self, index: int) -> Option<Case> {
        if self is Smoke && index >= 5 {
            None
        } else if self is Extensions && index == 20 {
            Some(Case::X25519)
        } else if self is Extensions && index == 21 {
            Some(Case::Prefixed)
        } else if self is Ephemeral && index == 20 {
            Some(Case::Audit)
        } else if self is Ephemeral && index == 21 {
            Some(Case::ForceAudit)
        } else {
            Profile::managed_case(index)
        }
    }

    /// The case of the managed profile at a place.
    pub open spec fn managed_case(index: int) -> Option<Case> {
        if index == 0 {
            Some(Case::Malformed)
        } else if index == 1 {
            Some(Case::Echo)
        } else if index == 2 {
            Some(Case::Identity)
        } else if index == 3 {
            Some(Case::PublicKey)
        } else if index == 4 {
            Some(Case::Boundary)
        } else if index == 5 {
            Some(Case::Session)
        } else if index == 6 {
            Some(Case::Opaque)
        } else if index == 7 {
            Some(Case::Authorization)
        } else if index == 8 {
            Some(Case::Asymmetric)
        } else if index == 9 {
            Some(Case::Options)
        } else if index == 10 {
            Some(Case::Negative)
        } else if index == 11 {
            Some(Case::Hmac)
        } else if index == 12 {
            Some(Case::Aes)
        } else if index == 13 {
            Some(Case::Wrapping)
        } else if index == 14 {
            Some(Case::EcSigning)
        } else if index == 15 {
            Some(Case::Rsa)
        } else if index == 16 {
            Some(Case::RsaWrapping)
        } else if index == 17 {
            Some(Case::Agreement)
        } else if index == 18 {
            Some(Case::Otp)
        } else if index == 19 {
            Some(Case::Attestation)
        } else {
            None
        }
    }

    /// Finds the case of the managed profile at a place.
    fn find_managed_case(index: usize) -> (case: Option<Case>)
        ensures
            case == Profile::managed_case(index as int),
    {
        if index == 0 {
            Some(Case::Malformed)
        } else if index == 1 {
            Some(Case::Echo)
        } else if index == 2 {
            Some(Case::Identity)
        } else if index == 3 {
            Some(Case::PublicKey)
        } else if index == 4 {
            Some(Case::Boundary)
        } else if index == 5 {
            Some(Case::Session)
        } else if index == 6 {
            Some(Case::Opaque)
        } else if index == 7 {
            Some(Case::Authorization)
        } else if index == 8 {
            Some(Case::Asymmetric)
        } else if index == 9 {
            Some(Case::Options)
        } else if index == 10 {
            Some(Case::Negative)
        } else if index == 11 {
            Some(Case::Hmac)
        } else if index == 12 {
            Some(Case::Aes)
        } else if index == 13 {
            Some(Case::Wrapping)
        } else if index == 14 {
            Some(Case::EcSigning)
        } else if index == 15 {
            Some(Case::Rsa)
        } else if index == 16 {
            Some(Case::RsaWrapping)
        } else if index == 17 {
            Some(Case::Agreement)
        } else if index == 18 {
            Some(Case::Otp)
        } else if index == 19 {
            Some(Case::Attestation)
        } else {
            None
        }
    }

    /// Finds the case of a profile at a place.
    pub fn find_case(self, index: usize) -> (case: Option<Case>)
        ensures
            case == self.case_at(index as int),
    {
        if self == Profile::Smoke && index >= 5 {
            None
        } else if self == Profile::Extensions && index == 20 {
            Some(Case::X25519)
        } else if self == Profile::Extensions && index == 21 {
            Some(Case::Prefixed)
        } else if self == Profile::Ephemeral && index == 20 {
            Some(Case::Audit)
        } else if self == Profile::Ephemeral && index == 21 {
            Some(Case::ForceAudit)
        } else {
            Profile::find_managed_case(index)
        }
    }

    /// How many cases a profile has.
    pub open spec fn count(self) -> nat {
        match self {
            Profile::Smoke => 5,
            Profile::Managed => 20,
            Profile::Extensions => 22,
            Profile::Ephemeral => 22,
        }
    }

    /// Reads the name of a profile. Only a device of one's own may be changed for
    /// good.
    pub fn parse(name: &str, own: bool) -> (profile: Option<Profile>)
        ensures
            profile == Profile::named(name@, own),
    {
        let name: String = name.to_owned();
        if name == "smoke".to_owned() {
            Some(Profile::Smoke)
        } else if name == "managed".to_owned() {
            Some(Profile::Managed)
        } else if name == "extensions".to_owned() {
            Some(Profile::Extensions)
        } else if name == "ephemeral".to_owned() && own {
            Some(Profile::Ephemeral)
        } else {
            None
        }
    }

    /// The profile of a name.
    pub open spec fn named(name: Seq<char>, own: bool) -> Option<Profile> {
        if name == "smoke"@ {
            Some(Profile::Smoke)
        } else if name == "managed"@ {
            Some(Profile::Managed)
        } else if name == "extensions"@ {
            Some(Profile::Extensions)
        } else if name == "ephemeral"@ && own {
            Some(Profile::Ephemeral)
        } else {
            None
        }
    }
}

/// What a device says of itself.
#[derive(Clone, Debug)]
pub struct DeviceIdentity {
    pub version: [u8; 3],
    pub serial: u32,
    pub log_capacity: u8,
    pub log_used: u8,
    pub algorithms: Vec<u8>,
}

/// The contents of an identity.
#[verifier::ext_equal]
pub struct IdentityModel {
    pub version: Seq<u8>,
    pub serial: u32,
    pub log_capacity: u8,
    pub log_used: u8,
    pub algorithms: Seq<u8>,
}

impl View for DeviceIdentity {
    type V = IdentityModel;

    open spec fn view(&self) -> IdentityModel {
        IdentityModel {
            version: self.version@,
            serial: self.serial,
            log_capacity: self.log_capacity,
            log_used: self.log_used,
            algorithms: self.algorithms@,
        }
    }
}

/// The identity in device information.
pub open spec fn identity_of(data: Seq<u8>) -> Option<IdentityModel> {
    if data.len() < 9 {
        None
    } else {
        Some(
            IdentityModel {
                version: data.subrange(0, 3),
                serial: u32_at(data, 3),
                log_capacity: data[7],
                log_used: data[8],
                algorithms: data.subrange(9, data.len() as int),
            },
        )
    }
}

impl DeviceIdentity {
    /// Reads the identity in device information.
    pub fn read(data: &[u8]) -> (identity: Option<DeviceIdentity>)
        ensures
            match identity {
                Some(identity) => identity_of(data@) == Some(identity@),
                None => identity_of(data@) is None,
            },
    {
        if data.len() < 9 {
            return None;
        }
        let version: [u8; 3] = [data[0], data[1], data[2]];
        assert(version@ =~= data@.subrange(0, 3));
        Some(
            DeviceIdentity {
                version,
                serial: read_u32(data, 3),
                log_capacity: data[7],
                log_used: data[8],
                algorithms: copied_range(data, 9, data.len()),
            },
        )
    }
}

/// What a qualification that passed says.
#[derive(Clone, Debug)]
pub struct Report {
    pub target: String,
    pub profile: Profile,
    pub identity: Option<DeviceIdentity>,
    pub passed: Vec<&'static str>,
}

/// The contents of a report.
#[verifier::ext_equal]
pub struct ReportModel {
    pub target: Seq<char>,
    pub profile: Profile,
    pub identity: Option<IdentityModel>,
    pub passed: Seq<Seq<char>>,
}

/// The contents of names.
pub open spec fn name_models(names: Seq<&'static str>) -> Seq<Seq<char>> {
    Seq::new(names.len(), |i: int| names[i]@)
}

impl View for Report {
    type V = ReportModel;

    open spec fn view(&self) -> ReportModel {
        ReportModel {
            target: self.target@,
            profile: self.profile,
            identity: match self.identity {
                Some(identity) => Some(identity@),
                None => None,
            },
            passed: name_models(self.passed@),
        }
    }
}

/// Which case of a qualification failed, and why.
#[derive(Clone, Debug)]
pub struct QualificationError {
    pub case: &'static str,
    pub failure: Failure,
}

/// The contents of a qualification's failure.
#[verifier::ext_equal]
pub struct QualificationErrorModel {
    pub case: Seq<char>,
    pub failure: FailureModel,
}

impl View for QualificationError {
    type V = QualificationErrorModel;

    open spec fn view(&self) -> QualificationErrorModel {
        QualificationErrorModel { case: self.case@, failure: self.failure@ }
    }
}

impl QualificationError {
    /// Names the case that failed.
    pub fn case(&self) -> (case: &'static str)
        ensures
            case@ == self@.case,
    {
        self.case
    }
}

/// How a qualification goes on.
#[derive(Clone, Debug)]
pub enum Progress {
    /// The step at hand waits for the answer to a question.
    Ask(HostQuestion),
    /// The step is done, and the next one comes without answers.
    Going,
    Passed(Report),
    Failed(QualificationError),
}

/// The contents of a progress.
#[verifier::ext_equal]
pub enum ProgressModel {
    Ask(QuestionModel),
    Going,
    Passed(ReportModel),
    Failed(QualificationErrorModel),
}

impl View for Progress {
    type V = ProgressModel;

    open spec fn view(&self) -> ProgressModel {
        match *self {
            Progress::Ask(question) => ProgressModel::Ask(question@),
            Progress::Going => ProgressModel::Going,
            Progress::Passed(report) => ProgressModel::Passed(report@),
            Progress::Failed(error) => ProgressModel::Failed(error@),
        }
    }
}

/// A qualification under way.
#[derive(Clone, Debug)]
pub struct Qualification {
    pub target: String,
    pub profile: Profile,
    pub credentials: Option<Credentials>,
    /// How many cases have passed.
    pub position: usize,
    /// What the steps of the case at hand brought.
    pub responses: Vec<Vec<u8>>,
    pub sessions: Sessions,
    /// Why the case at hand fails once it has cleaned up.
    pub failure: Option<Failure>,
    pub identity: Vec<u8>,
}

/// The contents of a qualification under way.
#[verifier::ext_equal]
pub struct QualificationModel {
    pub target: Seq<char>,
    pub profile: Profile,
    pub credentials: Option<CredentialsModel>,
    pub position: nat,
    pub responses: Seq<Seq<u8>>,
    pub sessions: SessionsModel,
    pub failure: Option<FailureModel>,
    pub identity: Seq<u8>,
}

impl View for Qualification {
    type V = QualificationModel;

    open spec fn view(&self) -> QualificationModel {
        QualificationModel {
            target: self.target@,
            profile: self.profile,
            credentials: match self.credentials {
                Some(credentials) => Some(credentials@),
                None => None,
            },
            position: self.position as nat,
            responses: data_models(self.responses@),
            sessions: self.sessions@,
            failure: match self.failure {
                Some(failure) => Some(failure@),
                None => None,
            },
            identity: self.identity@,
        }
    }
}

/// The step at which a case goes on when one fails: some cases clean up first.
pub open spec fn recovery(case: Case, step: nat) -> Option<nat> {
    if case is Authorization && 3 <= step <= 8 {
        Some(9)
    } else if case is Authorization && 9 <= step <= 11 {
        Some(step + 1)
    } else {
        None
    }
}

/// The names of the first cases of a profile.
pub open spec fn titles(profile: Profile, count: nat) -> Seq<Seq<char>> {
    Seq::new(
        count,
        |i: int|
            match profile.case_at(i) {
                Some(case) => case.title(),
                None => Seq::empty(),
            },
    )
}

impl QualificationModel {
    /// A qualification that has done nothing.
    pub open spec fn begun(
        target: Seq<char>,
        profile: Profile,
        credentials: Option<CredentialsModel>,
    ) -> QualificationModel {
        QualificationModel {
            target,
            profile,
            credentials,
            position: 0,
            responses: Seq::empty(),
            sessions: SessionsModel::none(),
            failure: None,
            identity: Seq::empty(),
        }
    }

    /// What a failure at the step at hand does.
    pub open spec fn after_failure(self, case: Case, failure: FailureModel) -> (
        QualificationModel,
        ProgressModel,
    ) {
        match recovery(case, self.responses.len()) {
            None => (
                self,
                ProgressModel::Failed(QualificationErrorModel { case: case.title(), failure }),
            ),
            Some(next) => (
                QualificationModel {
                    failure: match self.failure {
                        Some(first) => Some(first),
                        None => Some(failure),
                    },
                    responses: self.responses + Seq::new(
                        (next - self.responses.len()) as nat,
                        |i: int| Seq::<u8>::empty(),
                    ),
                    ..self
                },
                ProgressModel::Going,
            ),
        }
    }

    /// What the end of a case does.
    pub open spec fn after_case(self, case: Case) -> (QualificationModel, ProgressModel) {
        match self.failure {
            Some(failure) => (
                self,
                ProgressModel::Failed(QualificationErrorModel { case: case.title(), failure }),
            ),
            None => (
                QualificationModel {
                    position: self.position + 1,
                    responses: Seq::empty(),
                    sessions: SessionsModel::none(),
                    identity: if case is Identity && self.responses.len() > 0 {
                        self.responses[0]
                    } else {
                        self.identity
                    },
                    ..self
                },
                ProgressModel::Going,
            ),
        }
    }

    /// What answers to the step at hand do.
    pub open spec fn advanced(self, replies: Seq<HostReply>) -> (
        QualificationModel,
        ProgressModel,
    ) {
        match self.profile.case_at(self.position as int) {
            None => (
                self,
                ProgressModel::Passed(
                    ReportModel {
                        target: self.target,
                        profile: self.profile,
                        identity: identity_of(self.identity),
                        passed: titles(self.profile, self.position),
                    },
                ),
            ),
            Some(case) => if !case.is_smoke() && self.credentials is None {
                (
                    self,
                    ProgressModel::Failed(
                        QualificationErrorModel {
                            case: "credentials"@,
                            failure: FailureModel::Unmet("managed profiles require credentials"@),
                        },
                    ),
                )
            } else {
                match case_steps(case, self.credentials, self.responses) {
                    Err(failure) => self.after_failure(case, failure),
                    Ok(StepModel::Done) => self.after_case(case),
                    Ok(step) => match performed(step, self.sessions, replies, 0) {
                        Err(HostHaltModel::Ask(question)) => (self, ProgressModel::Ask(question)),
                        Err(HostHaltModel::Failed(failure)) => self.after_failure(case, failure),
                        Ok((brought, _)) => (
                            QualificationModel {
                                responses: self.responses.push(brought.data),
                                sessions: brought.sessions,
                                ..self
                            },
                            ProgressModel::Going,
                        ),
                    },
                }
            },
        }
    }
}

impl Qualification {
    /// Begins a qualification.
    pub fn new(
        target: String,
        profile: Profile,
        credentials: Option<Credentials>,
    ) -> (run: Qualification)
        ensures
            run@ == QualificationModel::begun(
                target@,
                profile,
                match credentials {
                    Some(credentials) => Some(credentials@),
                    None => None,
                },
            ),
    {
        let run = Qualification {
            target,
            profile,
            credentials,
            position: 0,
            responses: Vec::new(),
            sessions: Sessions::none(),
            failure: None,
            identity: Vec::new(),
        };
        assert(run@.responses =~= Seq::<Seq<u8>>::empty());
        assert(run@.identity =~= Seq::<u8>::empty());
        run
    }

    /// Tells at which step a case goes on when one fails.
    fn recover(case: Case, step: usize) -> (next: Option<usize>)
        ensures
            match next {
                Some(next) => recovery(case, step as nat) == Some(next as nat) && next > step,
                None => recovery(case, step as nat) is None,
            },
    {
        if case == Case::Authorization && 3 <= step && step <= 8 {
            Some(9)
        } else if case == Case::Authorization && 9 <= step && step <= 11 {
            Some(step + 1)
        } else {
            None
        }
    }

    /// Takes a failure at the step at hand.
    fn fail(&mut self, case: Case, failure: Failure) -> (progress: Progress)
        ensures
            (final(self)@, progress@) == old(self)@.after_failure(case, failure@),
    {
        match Qualification::recover(case, self.responses.len()) {
            None => Progress::Failed(QualificationError { case: case.name(), failure }),
            Some(next) => {
                let ghost before = self@;
                let ghost gap = next - self.responses@.len();
                if self.failure.is_none() {
                    self.failure = Some(failure);
                }
                while self.responses.len() < next
                    invariant
                        self.responses@.len() <= next,
                        gap == next - before.responses.len(),
                        self@ == (QualificationModel {
                            failure: match before.failure {
                                Some(first) => Some(first),
                                None => Some(failure@),
                            },
                            responses: before.responses + Seq::new(
                                (self.responses@.len() - before.responses.len()) as nat,
                                |i: int| Seq::<u8>::empty(),
                            ),
                            ..before
                        }),
                        before.responses.len() <= self.responses@.len(),
                    decreases next - self.responses@.len(),
                {
                    let none: Vec<u8> = Vec::new();
                    assert(none@ =~= Seq::<u8>::empty());
                    let ghost known = self.responses@;
                    self.responses.push(none);
                    assert(self@.responses =~= before.responses + Seq::new(
                        (self.responses@.len() - before.responses.len()) as nat,
                        |i: int| Seq::<u8>::empty(),
                    )) by {
                        assert(data_models(self.responses@) =~= data_models(known).push(none@));
                    }
                }
                Progress::Going
            },
        }
    }

    /// Takes the end of a case.
    fn end_case(&mut self, case: Case) -> (progress: Progress)
        requires
            old(self).position < usize::MAX,
        ensures
            (final(self)@, progress@) == old(self)@.after_case(case),
    {
        if self.failure.is_some() {
            let mut failure: Option<Failure> = None;
            core::mem::swap(&mut failure, &mut self.failure);
            if let Some(failure) = failure {
                let copy = failure.copied();
                self.failure = Some(failure);
                return Progress::Failed(QualificationError { case: case.name(), failure: copy });
            }
        }
        if case == Case::Identity && self.responses.len() > 0 {
            self.identity = copied(&self.responses[0]);
            assert(self.identity@ == data_models(self.responses@)[0]);
        }
        self.position = self.position + 1;
        self.responses = Vec::new();
        self.sessions = Sessions::none();
        assert(self@.responses =~= Seq::<Seq<u8>>::empty());
        Progress::Going
    }

    /// Writes the report of a qualification that passed.
    fn report(&self) -> (report: Report)
        ensures
            report@ == (ReportModel {
                target: self@.target,
                profile: self@.profile,
                identity: identity_of(self@.identity),
                passed: titles(self@.profile, self@.position),
            }),
    {
        let mut passed: Vec<&'static str> = Vec::new();
        while passed.len() < self.position
            invariant
                passed@.len() <= self.position,
                name_models(passed@) == titles(self.profile, passed@.len()),
            decreases self.position - passed@.len(),
        {
            let ghost before = passed@;
            let name: &'static str = match self.profile.find_case(passed.len()) {
                Some(case) => case.name(),
                None => "",
            };
            proof {
                reveal_strlit("");
            }
            assert(self.profile.case_at(before.len() as int) is None ==> name@ =~= Seq::<
                char,
            >::empty());
            passed.push(name);
            let ghost wanted = titles(self.profile, passed@.len());
            assert forall|i: int| 0 <= i < passed@.len() implies name_models(passed@)[i]
                == wanted[i] by {
                if i < before.len() {
                    assert(name_models(before)[i] == titles(self.profile, before.len())[i]);
                    assert(passed@[i] == before[i]);
                }
            }
            assert(name_models(passed@) =~= wanted);
        }
        Report {
            target: self.target.clone(),
            profile: self.profile,
            identity: DeviceIdentity::read(&self.identity),
            passed,
        }
    }

    /// Goes on with the answers to the step at hand.
    pub fn advance(&mut self, replies: &[HostReply]) -> (progress: Progress)
        ensures
            (final(self)@, progress@) == old(self)@.advanced(replies@),
    {
        let case = match self.profile.find_case(self.position) {
            Some(case) => case,
            None => {
                return Progress::Passed(self.report());
            },
        };
        if !case.smoke() && self.credentials.is_none() {
            return Progress::Failed(
                QualificationError {
                    case: "credentials",
                    failure: Failure::Unmet("managed profiles require credentials"),
                },
            );
        }
        let step = match case_step(case, self.credentials.as_ref(), &self.responses) {
            Err(failure) => {
                return self.fail(case, failure);
            },
            Ok(step) => step,
        };
        if let Step::Done = step {
            return self.end_case(case);
        }
        let mut answers = HostAnswers::new(replies);
        match perform(&step, &self.sessions, &mut answers) {
            Err(HostHalt::Ask(question)) => Progress::Ask(question),
            Err(HostHalt::Failed(failure)) => self.fail(case, failure),
            Ok(brought) => {
                let ghost before = self.responses@;
                self.responses.push(brought.data);
                self.sessions = brought.sessions;
                assert(data_models(self.responses@) =~= data_models(before).push(brought@.data));
                Progress::Going
            },
        }
    }
}

/// Every profile begins with the checks that are safe for an unknown device, and
/// those come without credentials.
pub proof fn profiles_begin_safely(profile: Profile, index: int)
    requires
        0 <= index,
    ensures
        index < 5 ==> profile.case_at(index) == Profile::Smoke.case_at(index),
        profile.case_at(index) matches Some(case) ==> (case.is_smoke() <==> index < 5),
        profile.case_at(index) is Some <==> index < profile.count(),
        5 <= index < 20 && !(profile is Smoke) ==> profile.case_at(index)
            == Profile::Managed.case_at(index),
{
}

/// The checks that are safe for an unknown device open no session: they send no
/// command that needs one.
pub proof fn smoke_opens_no_session(
    case: Case,
    credentials: Option<CredentialsModel>,
    responses: Seq<Seq<u8>>,
)
    requires
        case.is_smoke(),
    ensures
        case_steps(case, credentials, responses) matches Ok(step) ==> step is Plain || step is Raw
            || step is Done,
{
}

/// Every case ends: none has more steps than fill a log of the largest size.
pub proof fn cases_end(
    case: Case,
    credentials: Option<CredentialsModel>,
    responses: Seq<Seq<u8>>,
)
    requires
        responses.len() > 260,
    ensures
        case_steps(case, credentials, responses) matches Ok(step) ==> step is Done,
{
}

/// A step that waits for an answer, and one that failed for good, leave the
/// qualification where it is.
pub proof fn questions_keep_the_place(run: QualificationModel, replies: Seq<HostReply>)
    ensures
        ({
            let (after, progress) = run.advanced(replies);
            &&& progress is Ask || progress is Failed || progress is Passed ==> after == run
            &&& progress is Going ==> after.position == run.position + 1 || (after.position
                == run.position && after.responses.len() > run.responses.len())
        }),
{
}

/// A qualification passes only once every case of its profile has, in order.
pub proof fn reports_tell_every_case(run: QualificationModel, replies: Seq<HostReply>)
    requires
        run.position <= run.profile.count(),
    ensures
        run.advanced(replies).0.position <= run.profile.count(),
        run.advanced(replies).1 matches ProgressModel::Passed(report) ==> run.position
            == run.profile.count() && report.passed.len() == run.profile.count() && forall|i: int|
            0 <= i < run.profile.count() ==> ((#[trigger] run.profile.case_at(i)) matches Some(case)
                && report.passed[i] == case.title()),
{
    profiles_begin_safely(run.profile, run.position as int);
    assert forall|i: int| 0 <= i < run.profile.count() implies (#[trigger] run.profile.case_at(
        i,
    )) is Some by {
        profiles_begin_safely(run.profile, i);
    }
}

impl QualificationModel {
    /// Whether a qualification knows the device as far as it has come: what the
    /// device told of itself is its identity, first as the answer in the case that
    /// asks for it, then as what was kept of that case.
    pub open spec fn identified(self) -> bool {
        &&& self.position <= self.profile.count()
        &&& self.profile.case_at(self.position as int) == Some(Case::Identity)
            && self.responses.len() > 0 ==> identity_of(self.responses[0]) is Some
        &&& (exists|i: int|
            0 <= i < self.position && #[trigger] self.profile.case_at(i) == Some(Case::Identity))
            ==> identity_of(self.identity) is Some
    }
}

/// A report of a qualification that passed tells which device it is: a
/// qualification begins with nothing to tell, every step keeps what is known of
/// the device, and no profile is without the case that asks for it.
pub proof fn reports_tell_the_device(run: QualificationModel, replies: Seq<HostReply>)
    requires
        run.identified(),
    ensures
        forall|target: Seq<char>, profile: Profile, credentials: Option<CredentialsModel>|
            #[trigger]
            QualificationModel::begun(target, profile, credentials).identified(),
        run.advanced(replies).0.identified(),
        run.advanced(replies).1 matches ProgressModel::Passed(report) ==> report.identity is Some
            && report.identity == identity_of(run.identity),
{
    reports_tell_every_case(run, replies);
    assert(run.profile.case_at(2) == Some(Case::Identity));
}

} // verus!
