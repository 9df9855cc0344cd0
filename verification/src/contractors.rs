//! Contractor onboarding: the connected account at the processor, the
//! contractor row, its address, and the mark on the profile.

use vstd::prelude::*;
use crate::billing::refused;
use crate::failure::{ErrorKind, Failure, Step};
use crate::processor::{ProcessorCall, ProcessorReply};
use crate::records::{Contractor, ContractorKycFormData};
use crate::remote::{
    contractor_rows, profile_rows, read_contractors, read_profiles, unusable, Action, Event,
    ProfileColumns, StoreOp, StoreReply,
};
use crate::profiles::{guarded, guards};
use crate::rows::require_session;

verus! {

/// Where an onboarding stands.
#[derive(Debug, Clone, PartialEq, Eq)]
pub enum OnboardStage {
    /// Waiting for the user's profile.
    AwaitProfile,
    /// Waiting for the connected account.
    AwaitAccount { profile_id: String },
    /// Waiting for the contractor row.
    AwaitContractor { profile_id: String },
    /// Waiting for the address row.
    AwaitAddress { profile_id: String, contractor: Contractor },
    /// Waiting for the mark on the profile.
    AwaitMark { contractor: Contractor },
    Finished,
}

/// An onboarding in progress.
#[derive(Debug, Clone, PartialEq, Eq)]
pub struct OnboardFlow {
    pub user_id: String,
    pub form: ContractorKycFormData,
    pub stage: OnboardStage,
}

/// The onboarding has ended with this failure.
pub open spec fn onboard_fails(
    next: OnboardFlow,
    action: Action<Contractor>,
    kind: ErrorKind,
    step: Step,
) -> bool {
    next.stage == OnboardStage::Finished && action.fails_with(kind, step, None, Seq::empty())
}

/// The onboarding goes on to mark the profile as the contractor's.
pub open spec fn marks_profile(
    profile_id: String,
    contractor: Contractor,
    next: OnboardFlow,
    action: Action<Contractor>,
) -> bool {
    &&& next.stage == (OnboardStage::AwaitMark { contractor })
    &&& action == Action::<Contractor>::Store(
        StoreOp::MarkContractor { profile_id, contractor_id: contractor.id },
    )
}

/// The operation that stores the form's address for a contractor.
pub open spec fn address_op(form: ContractorKycFormData, contractor: Contractor) -> StoreOp {
    let address = form.address->Some_0;
    StoreOp::InsertContractorAddress {
        contractor_id: contractor.id,
        line1: address.line1,
        line2: address.line2,
        city: address.city,
        state: address.state,
        postal_code: address.postal_code,
        country: address.country,
    }
}

/// What a later step of an onboarding makes of a reply: a request that could
/// not be sent ends the onboarding, an answer of any status lets it go on.
pub open spec fn sent(reply: StoreReply) -> bool {
    reply is Answered
}

/// One step of an onboarding.
///
/// The user needs a profile. The connected account is created first, then
/// the contractor row, which must come back. The address row and the mark on
/// the profile are best effort as far as the backend's answer goes: a refusal
/// is passed over, and only a request that could not be sent ends the
/// onboarding.
pub open spec fn onboard_step(
    flow: OnboardFlow,
    event: Event,
    next: OnboardFlow,
    action: Action<Contractor>,
) -> bool {
    &&& next.user_id == flow.user_id
    &&& next.form == flow.form
    &&& match flow.stage {
        OnboardStage::AwaitProfile => match event {
            Event::Store(reply) => match profile_rows(reply) {
                Some(rows) => if rows@.len() == 0 {
                    onboard_fails(next, action, ErrorKind::NotFound, Step::LoadProfile)
                } else {
                    next.stage == (OnboardStage::AwaitAccount { profile_id: rows@[0].id })
                        && action == Action::<Contractor>::Processor(
                        ProcessorCall::CreateConnectAccount {
                            user_id: flow.user_id,
                            contractor_type: flow.form.contractor_type,
                            email: flow.form.email,
                        },
                    )
                },
                None => next.stage == OnboardStage::Finished && (action matches Action::Finish(
                    Err(f),
                ) && unusable(reply, Step::LoadProfile, f)),
            },
            _ => onboard_fails(next, action, ErrorKind::UnexpectedEvent, Step::Protocol),
        },
        OnboardStage::AwaitAccount { profile_id } => match event {
            Event::Processor(ProcessorReply::Connect(account)) => next.stage
                == (OnboardStage::AwaitContractor { profile_id }) && action == Action::<
                Contractor,
            >::Store(
                StoreOp::InsertContractor {
                    user_id: flow.user_id,
                    profile_id,
                    contractor_type: flow.form.contractor_type,
                    connect_account_id: account.account_id,
                    requirements_completed: account.requirements_completed,
                    business_name: flow.form.business_name,
                    business_tax_id: flow.form.business_tax_id,
                },
            ),
            Event::Processor(reply) => next.stage == OnboardStage::Finished && (
            action matches Action::Finish(Err(f)) && refused(
                reply,
                ErrorKind::ProcessorOperationError,
                Step::CreateConnectAccount,
                f,
            )),
            _ => onboard_fails(next, action, ErrorKind::UnexpectedEvent, Step::Protocol),
        },
        OnboardStage::AwaitContractor { profile_id } => match event {
            Event::Store(reply) => match contractor_rows(reply) {
                Some(rows) => if rows@.len() == 0 {
                    onboard_fails(next, action, ErrorKind::NotFound, Step::CreateContractor)
                } else if flow.form.address is Some {
                    next.stage == (OnboardStage::AwaitAddress {
                        profile_id,
                        contractor: rows@[0],
                    }) && action == Action::<Contractor>::Store(address_op(flow.form, rows@[0]))
                } else {
                    marks_profile(profile_id, rows@[0], next, action)
                },
                None => next.stage == OnboardStage::Finished && (action matches Action::Finish(
                    Err(f),
                ) && unusable(reply, Step::CreateContractor, f)),
            },
            _ => onboard_fails(next, action, ErrorKind::UnexpectedEvent, Step::Protocol),
        },
        OnboardStage::AwaitAddress { profile_id, contractor } => match event {
            Event::Store(reply) => if sent(reply) {
                marks_profile(profile_id, contractor, next, action)
            } else {
                next.stage == OnboardStage::Finished && (action matches Action::Finish(Err(f))
                    && unusable(reply, Step::CreateContractor, f))
            },
            _ => onboard_fails(next, action, ErrorKind::UnexpectedEvent, Step::Protocol),
        },
        OnboardStage::AwaitMark { contractor } => match event {
            Event::Store(reply) => next.stage == OnboardStage::Finished && if sent(reply) {
                action == Action::<Contractor>::Finish(Ok(contractor))
            } else {
                action matches Action::Finish(Err(f)) && unusable(reply, Step::SaveProfile, f)
            },
            _ => onboard_fails(next, action, ErrorKind::UnexpectedEvent, Step::Protocol),
        },
        OnboardStage::Finished => onboard_fails(
            next,
            action,
            ErrorKind::UnexpectedEvent,
            Step::Protocol,
        ),
    }
}

/// Starts onboarding a contractor. Without a session nothing is asked for;
/// else the first thing asked for is the user's profile.
pub fn create_contractor_profile(
    user_id: String,
    form: ContractorKycFormData,
    has_session: bool,
) -> (r:
    (OnboardFlow, Action<Contractor>))
    ensures
        r.0.user_id == user_id,
        r.0.form == form,
        has_session ==> r.0.stage == OnboardStage::AwaitProfile && r.1 == Action::<
            Contractor,
        >::Store(StoreOp::FetchProfile { user_id, columns: ProfileColumns::All }),
        !has_session ==> r.0.stage == OnboardStage::Finished && r.1.fails_with(
            ErrorKind::AuthenticationRequired,
            Step::Session,
            None,
            Seq::empty(),
        ),
{
    match require_session(has_session) {
        Ok(()) => {
            let op = StoreOp::FetchProfile {
                user_id: user_id.clone(),
                columns: ProfileColumns::All,
            };
            (OnboardFlow { user_id, form, stage: OnboardStage::AwaitProfile }, Action::Store(op))
        },
        Err(f) => (
            OnboardFlow { user_id, form, stage: OnboardStage::Finished },
            Action::Finish(Err(f)),
        ),
    }
}

fn copy_text(text: &Option<String>) -> (r: Option<String>)
    ensures
        r == *text,
{
    match text {
        Some(t) => Some(t.clone()),
        None => None,
    }
}

fn not_sent(reply: StoreReply, step: Step) -> (f: Failure)
    requires
        !sent(reply),
    ensures
        unusable(reply, step, f),
{
    match reply {
        StoreReply::Unavailable { failure } => failure,
        StoreReply::Unreachable { detail } => Failure::reported(
            ErrorKind::RemoteStoreError,
            step,
            detail,
        ),
        StoreReply::Answered { .. } => Failure::rule(ErrorKind::UnexpectedEvent, Step::Protocol),
    }
}

fn was_sent(reply: &StoreReply) -> (r: bool)
    ensures
        r == sent(*reply),
{
    match reply {
        StoreReply::Answered { .. } => true,
        _ => false,
    }
}

impl OnboardFlow {
    fn stop(self, failure: Failure) -> (r: (OnboardFlow, Action<Contractor>))
        ensures
            r.0 == (OnboardFlow {
                user_id: self.user_id,
                form: self.form,
                stage: OnboardStage::Finished,
            }),
            r.1 == Action::<Contractor>::Finish(Err(failure)),
    {
        (
            OnboardFlow { user_id: self.user_id, form: self.form, stage: OnboardStage::Finished },
            Action::Finish(Err(failure)),
        )
    }

    fn mark_profile(self, profile_id: String, contractor: Contractor) -> (r: (
        OnboardFlow,
        Action<Contractor>,
    ))
        ensures
            r.0.user_id == self.user_id,
            r.0.form == self.form,
            marks_profile(profile_id, contractor, r.0, r.1),
    {
        let op = StoreOp::MarkContractor { profile_id, contractor_id: contractor.id.clone() };
        (
            OnboardFlow {
                user_id: self.user_id,
                form: self.form,
                stage: OnboardStage::AwaitMark { contractor },
            },
            Action::Store(op),
        )
    }

    /// Takes the outcome of the action last asked for and says what comes
    /// next.
    pub fn advance(self, event: Event) -> (r: (OnboardFlow, Action<Contractor>))
        ensures
            onboard_step(self, event, r.0, r.1),
    {
        let OnboardFlow { user_id, form, stage } = self;
        let base = OnboardFlow { user_id, form, stage: OnboardStage::Finished };
        match stage {
            OnboardStage::AwaitProfile => match event {
                Event::Store(reply) => match read_profiles(reply, Step::LoadProfile) {
                    Ok(mut rows) => {
                        if rows.len() == 0 {
                            base.stop(Failure::rule(ErrorKind::NotFound, Step::LoadProfile))
                        } else {
                            let profile = rows.remove(0);
                            let call = ProcessorCall::CreateConnectAccount {
                                user_id: base.user_id.clone(),
                                contractor_type: base.form.contractor_type.clone(),
                                email: base.form.email.clone(),
                            };
                            (
                                OnboardFlow {
                                    user_id: base.user_id,
                                    form: base.form,
                                    stage: OnboardStage::AwaitAccount { profile_id: profile.id },
                                },
                                Action::Processor(call),
                            )
                        }
                    },
                    Err(f) => base.stop(f),
                },
                _ => base.stop(Failure::rule(ErrorKind::UnexpectedEvent, Step::Protocol)),
            },
            OnboardStage::AwaitAccount { profile_id } => match event {
                Event::Processor(ProcessorReply::Connect(account)) => {
                    let op = StoreOp::InsertContractor {
                        user_id: base.user_id.clone(),
                        profile_id: profile_id.clone(),
                        contractor_type: base.form.contractor_type.clone(),
                        connect_account_id: account.account_id,
                        requirements_completed: account.requirements_completed,
                        business_name: copy_text(&base.form.business_name),
                        business_tax_id: copy_text(&base.form.business_tax_id),
                    };
                    (
                        OnboardFlow {
                            user_id: base.user_id,
                            form: base.form,
                            stage: OnboardStage::AwaitContractor { profile_id },
                        },
                        Action::Store(op),
                    )
                },
                Event::Processor(ProcessorReply::Rejected { detail }) => base.stop(
                    Failure::reported(
                        ErrorKind::ProcessorOperationError,
                        Step::CreateConnectAccount,
                        detail,
                    ),
                ),
                Event::Processor(_) => base.stop(
                    Failure::rule(ErrorKind::UnexpectedEvent, Step::Protocol),
                ),
                _ => base.stop(Failure::rule(ErrorKind::UnexpectedEvent, Step::Protocol)),
            },
            OnboardStage::AwaitContractor { profile_id } => match event {
                Event::Store(reply) => match read_contractors(reply, Step::CreateContractor) {
                    Ok(mut rows) => {
                        if rows.len() == 0 {
                            base.stop(Failure::rule(ErrorKind::NotFound, Step::CreateContractor))
                        } else {
                            let contractor = rows.remove(0);
                            match &base.form.address {
                                Some(address) => {
                                    let op = StoreOp::InsertContractorAddress {
                                        contractor_id: contractor.id.clone(),
                                        line1: address.line1.clone(),
                                        line2: copy_text(&address.line2),
                                        city: address.city.clone(),
                                        state: address.state.clone(),
                                        postal_code: address.postal_code.clone(),
                                        country: address.country.clone(),
                                    };
                                    (
                                        OnboardFlow {
                                            user_id: base.user_id,
                                            form: base.form,
                                            stage: OnboardStage::AwaitAddress {
                                                profile_id,
                                                contractor,
                                            },
                                        },
                                        Action::Store(op),
                                    )
                                },
                                None => base.mark_profile(profile_id, contractor),
                            }
                        }
                    },
                    Err(f) => base.stop(f),
                },
                _ => base.stop(Failure::rule(ErrorKind::UnexpectedEvent, Step::Protocol)),
            },
            OnboardStage::AwaitAddress { profile_id, contractor } => match event {
                Event::Store(reply) => {
                    if was_sent(&reply) {
                        base.mark_profile(profile_id, contractor)
                    } else {
                        let f = not_sent(reply, Step::CreateContractor);
                        base.stop(f)
                    }
                },
                _ => base.stop(Failure::rule(ErrorKind::UnexpectedEvent, Step::Protocol)),
            },
            OnboardStage::AwaitMark { contractor } => match event {
                Event::Store(reply) => {
                    if was_sent(&reply) {
                        (
                            OnboardFlow {
                                user_id: base.user_id,
                                form: base.form,
                                stage: OnboardStage::Finished,
                            },
                            Action::Finish(Ok(contractor)),
                        )
                    } else {
                        let f = not_sent(reply, Step::SaveProfile);
                        base.stop(f)
                    }
                },
                _ => base.stop(Failure::rule(ErrorKind::UnexpectedEvent, Step::Protocol)),
            },
            OnboardStage::Finished => base.stop(
                Failure::rule(ErrorKind::UnexpectedEvent, Step::Protocol),
            ),
        }
    }
}

/// The operation that stores a user's onboarding form, given as JSON text.
pub fn save_kyc_form_data(user_id: String, kyc_json: String, has_session: bool) -> (r: Result<
    StoreOp,
    Failure,
>)
    ensures
        guards(StoreOp::SaveKycForm { user_id, kyc_json }, has_session, r),
{
    guarded(StoreOp::SaveKycForm { user_id, kyc_json }, has_session)
}

/// The operation that reads a user's stored onboarding form.
pub fn load_kyc_form_data(user_id: String, has_session: bool) -> (r: Result<StoreOp, Failure>)
    ensures
        guards(StoreOp::LoadKycForm { user_id }, has_session, r),
{
    guarded(StoreOp::LoadKycForm { user_id }, has_session)
}

/// The operation that reads the contractor of a user.
pub fn get_contractor_profile(user_id: String, has_session: bool) -> (r: Result<StoreOp, Failure>)
    ensures
        guards(StoreOp::FetchContractor { user_id }, has_session, r),
{
    guarded(StoreOp::FetchContractor { user_id }, has_session)
}

/// The operation that lists the beneficial owners of a contractor.
pub fn get_beneficial_owners(contractor_id: String, has_session: bool) -> (r: Result<
    StoreOp,
    Failure,
>)
    ensures
        guards(StoreOp::ListBeneficialOwners { contractor_id }, has_session, r),
{
    guarded(StoreOp::ListBeneficialOwners { contractor_id }, has_session)
}

/// The operation that stores a representative of a contractor.
pub fn create_representative(
    contractor_id: String,
    first_name: String,
    last_name: String,
    date_of_birth: String,
    email: Option<String>,
    phone_number: Option<String>,
    street_address: String,
    street_address_2: Option<String>,
    city: String,
    state_province: Option<String>,
    postal_code: String,
    country: String,
    title: String,
    is_authorized_signatory: bool,
    national_id_number: Option<String>,
    national_id_type: Option<String>,
    has_session: bool,
) -> (r: Result<StoreOp, Failure>)
    ensures
        guards(
            StoreOp::InsertRepresentative {
                contractor_id,
                first_name,
                last_name,
                date_of_birth,
                email,
                phone_number,
                street_address,
                street_address_2,
                city,
                state_province,
                postal_code,
                country,
                title,
                is_authorized_signatory,
                national_id_number,
                national_id_type,
            },
            has_session,
            r,
        ),
{
    guarded(
        StoreOp::InsertRepresentative {
            contractor_id,
            first_name,
            last_name,
            date_of_birth,
            email,
            phone_number,
            street_address,
            street_address_2,
            city,
            state_province,
            postal_code,
            country,
            title,
            is_authorized_signatory,
            national_id_number,
            national_id_type,
        },
        has_session,
    )
}

/// The operation that lists the representatives of a contractor.
pub fn get_representatives(contractor_id: String, has_session: bool) -> (r: Result<
    StoreOp,
    Failure,
>)
    ensures
        guards(StoreOp::ListRepresentatives { contractor_id }, has_session, r),
{
    guarded(StoreOp::ListRepresentatives { contractor_id }, has_session)
}

/// The operation that stores the record of an uploaded document.
pub fn create_document_upload(
    contractor_id: String,
    document_type: String,
    document_purpose: String,
    file_name: String,
    file_size: Option<i64>,
    mime_type: Option<String>,
    stripe_file_id: Option<String>,
    local_file_path: Option<String>,
    file_hash: Option<String>,
    required_for_capability: Option<Vec<String>>,
    requirement_id: Option<String>,
    has_session: bool,
) -> (r: Result<StoreOp, Failure>)
    ensures
        guards(
            StoreOp::InsertDocumentUpload {
                contractor_id,
                document_type,
                document_purpose,
                file_name,
                file_size,
                mime_type,
                stripe_file_id,
                local_file_path,
                file_hash,
                required_for_capability,
                requirement_id,
            },
            has_session,
            r,
        ),
{
    guarded(
        StoreOp::InsertDocumentUpload {
            contractor_id,
            document_type,
            document_purpose,
            file_name,
            file_size,
            mime_type,
            stripe_file_id,
            local_file_path,
            file_hash,
            required_for_capability,
            requirement_id,
        },
        has_session,
    )
}

/// The operation that lists the document records of a contractor.
pub fn get_document_uploads(contractor_id: String, has_session: bool) -> (r: Result<
    StoreOp,
    Failure,
>)
    ensures
        guards(StoreOp::ListDocumentUploads { contractor_id }, has_session, r),
{
    guarded(StoreOp::ListDocumentUploads { contractor_id }, has_session)
}

/// The operation that changes the given fields of a document record.
pub fn update_document_upload_status(
    document_id: String,
    stripe_file_id: Option<String>,
    stripe_upload_status: Option<String>,
    stripe_upload_error: Option<String>,
    verification_status: Option<String>,
    verification_notes: Option<String>,
    has_session: bool,
) -> (r: Result<StoreOp, Failure>)
    ensures
        guards(
            StoreOp::UpdateDocumentUpload {
                document_id,
                stripe_file_id,
                stripe_upload_status,
                stripe_upload_error,
                verification_status,
                verification_notes,
            },
            has_session,
            r,
        ),
{
    guarded(
        StoreOp::UpdateDocumentUpload {
            document_id,
            stripe_file_id,
            stripe_upload_status,
            stripe_upload_error,
            verification_status,
            verification_notes,
        },
        has_session,
    )
}

} // verus!
