//! The research and resume pipelines as typed state machines: each stage is
//! a type, and a flow moves to the next stage only with that stage's result.
//! The research of the vectors goes through a `Researcher`; the other
//! model calls are made by the caller, which hands their results in.

use vstd::prelude::*;
use core::marker::PhantomData;
use crate::composer::ResumeComposer;
use crate::directory::JobEntry;
use crate::research::{Dossier, ResearchFinding, ResearchVector, Researcher, ResolvedIdentity};
use crate::resume::{CandidateProfile, JobRequirements, Resume, TailoredContent};

verus! {

/// Research stage: nothing resolved yet.
pub struct Unresolved;

/// Research stage: the hiring entity is known.
pub struct Identified;

/// Research stage: the research vectors are known.
pub struct Vectorized;

/// Research stage: every vector has been researched.
pub struct Researched;

/// Research stage: the dossier is written.
pub struct Complete;

/// The company-research pipeline for one job.
pub struct ResearchFlow<S> {
    pub job: JobEntry,
    pub knowledge_base: String,
    identity: Option<ResolvedIdentity>,
    vectors: Option<Vec<ResearchVector>>,
    findings: Option<Vec<ResearchFinding>>,
    dossier: Option<Dossier>,
    _state: PhantomData<S>,
}

impl<S> ResearchFlow<S> {
    /// The job being researched.
    pub closed spec fn job_of(&self) -> JobEntry {
        self.job
    }

    /// The candidate's knowledge base.
    pub closed spec fn knowledge_base_of(&self) -> String {
        self.knowledge_base
    }

    /// The resolved identity, once known.
    pub closed spec fn identity_of(&self) -> Option<ResolvedIdentity> {
        self.identity
    }

    /// The research vectors, once known.
    pub closed spec fn vectors_of(&self) -> Option<Seq<ResearchVector>> {
        match self.vectors {
            Some(v) => Some(v@),
            None => None,
        }
    }

    /// The findings, once known.
    pub closed spec fn findings_of(&self) -> Option<Seq<ResearchFinding>> {
        match self.findings {
            Some(f) => Some(f@),
            None => None,
        }
    }

    /// The dossier, once written.
    pub closed spec fn dossier_of(&self) -> Option<Dossier> {
        self.dossier
    }
}

impl ResearchFlow<Unresolved> {
    /// Starts the research for a job, with the candidate's knowledge base.
    pub fn new(job: JobEntry, knowledge_base: &str) -> (r: ResearchFlow<Unresolved>)
        ensures
            r.job_of() == job,
            r.knowledge_base_of()@ == knowledge_base@,
            r.identity_of() is None,
            r.vectors_of() is None,
            r.findings_of() is None,
            r.dossier_of() is None,
    {
        ResearchFlow {
            job,
            knowledge_base: knowledge_base.to_owned(),
            identity: None,
            vectors: None,
            findings: None,
            dossier: None,
            _state: PhantomData,
        }
    }

    /// Records the resolved hiring entity.
    pub fn resolve(self, identity: ResolvedIdentity) -> (r: ResearchFlow<Identified>)
        ensures
            r.job_of() == self.job_of(),
            r.knowledge_base_of() == self.knowledge_base_of(),
            r.identity_of() == Some(identity),
            r.vectors_of() is None,
            r.findings_of() is None,
            r.dossier_of() is None,
    {
        ResearchFlow {
            job: self.job,
            knowledge_base: self.knowledge_base,
            identity: Some(identity),
            vectors: None,
            findings: None,
            dossier: None,
            _state: PhantomData,
        }
    }
}

impl ResearchFlow<Identified> {
    /// The resolved hiring entity.
    pub fn identity(&self) -> (r: &ResolvedIdentity)
        requires
            self.identity_of() is Some,
        ensures
            Some(*r) == self.identity_of(),
    {
        self.identity.as_ref().expect("identity should be set")
    }

    /// Records the research vectors.
    pub fn synthesize(self, vectors: Vec<ResearchVector>) -> (r: ResearchFlow<Vectorized>)
        ensures
            r.job_of() == self.job_of(),
            r.knowledge_base_of() == self.knowledge_base_of(),
            r.identity_of() == self.identity_of(),
            r.vectors_of() == Some(vectors@),
            r.findings_of() is None,
            r.dossier_of() is None,
    {
        ResearchFlow {
            job: self.job,
            knowledge_base: self.knowledge_base,
            identity: self.identity,
            vectors: Some(vectors),
            findings: None,
            dossier: None,
            _state: PhantomData,
        }
    }
}

/// `researcher` may answer `vector` with a finding.
pub open spec fn answered<R: Researcher>(researcher: &R, vector: &ResearchVector) -> bool {
    exists|f: ResearchFinding|
        #[trigger] call_ensures(R::research, (researcher, vector), Ok::<ResearchFinding, String>(f))
}

impl ResearchFlow<Vectorized> {
    /// The research vectors.
    pub fn vectors(&self) -> (r: &[ResearchVector])
        requires
            self.vectors_of() is Some,
        ensures
            Some(r@) == self.vectors_of(),
    {
        self.vectors.as_ref().expect("vectors should be set").as_slice()
    }

    /// Researches every vector in order with `researcher`, stopping at the
    /// first failure, whose error is returned: every vector before it was
    /// answered. On success the findings are the researcher's answers, one
    /// per vector and in the vectors' order.
    /// With no vector to research the researcher is not asked and the flow
    /// moves on.
    pub fn conduct<R: Researcher>(self, researcher: &R) -> (r: Result<ResearchFlow<Researched>, String>)
        requires
            self.vectors_of() is Some,
        ensures
            r matches Ok(f) ==> {
                &&& f.job_of() == self.job_of()
                &&& f.knowledge_base_of() == self.knowledge_base_of()
                &&& f.identity_of() == self.identity_of()
                &&& f.vectors_of() == self.vectors_of()
                &&& f.findings_of() matches Some(fs) && fs.len() == self.vectors_of().unwrap().len()
                    && forall|j: int|
                    0 <= j < fs.len() ==> call_ensures(
                        R::research,
                        (researcher, &self.vectors_of().unwrap()[j]),
                        Ok::<ResearchFinding, String>(#[trigger] fs[j]),
                    )
                &&& f.dossier_of() is None
            },
            r matches Err(e) ==> exists|k: int|
                0 <= k < self.vectors_of().unwrap().len() && call_ensures(
                    R::research,
                    (researcher, #[trigger] &self.vectors_of().unwrap()[k]),
                    Err::<ResearchFinding, String>(e),
                ) && forall|j: int|
                    0 <= j < k ==> #[trigger] answered(researcher, &self.vectors_of().unwrap()[j]),
            self.vectors_of().unwrap().len() == 0 ==> r is Ok,
    {
        let mut findings: Vec<ResearchFinding> = Vec::new();
        let vectors = self.vectors.as_ref().expect("vectors always set after Stage 2");
        let mut i: usize = 0;
        while i < vectors.len()
            invariant
                i <= vectors@.len(),
                findings@.len() == i,
                self.vectors_of() == Some(vectors@),
                forall|j: int|
                    0 <= j < i ==> call_ensures(
                        R::research,
                        (researcher, &vectors@[j]),
                        Ok::<ResearchFinding, String>(#[trigger] findings@[j]),
                    ),
            decreases vectors.len() - i,
        {
            match researcher.research(&vectors[i]) {
                Ok(f) => findings.push(f),
                Err(e) => {
                    assert(call_ensures(R::research, (researcher, &vectors@[i as int]), Err::<ResearchFinding, String>(e)));
                    assert forall|j: int| 0 <= j < i implies #[trigger] answered(researcher, &vectors@[j]) by {
                        assert(call_ensures(R::research, (researcher, &vectors@[j]), Ok::<ResearchFinding, String>(findings@[j])));
                    }
                    return Err(e);
                },
            }
            i = i + 1;
        }
        Ok(self.with_findings(findings))
    }

    /// Records the findings of the research.
    pub fn with_findings(self, findings: Vec<ResearchFinding>) -> (r: ResearchFlow<Researched>)
        ensures
            r.job_of() == self.job_of(),
            r.knowledge_base_of() == self.knowledge_base_of(),
            r.identity_of() == self.identity_of(),
            r.vectors_of() == self.vectors_of(),
            r.findings_of() == Some(findings@),
            r.dossier_of() is None,
    {
        ResearchFlow {
            job: self.job,
            knowledge_base: self.knowledge_base,
            identity: self.identity,
            vectors: self.vectors,
            findings: Some(findings),
            dossier: None,
            _state: PhantomData,
        }
    }
}

impl ResearchFlow<Researched> {
    /// The findings of the research.
    pub fn findings(&self) -> (r: &[ResearchFinding])
        requires
            self.findings_of() is Some,
        ensures
            Some(r@) == self.findings_of(),
    {
        self.findings.as_ref().expect("findings should be set").as_slice()
    }

    /// Records the dossier.
    pub fn generate(self, dossier: Dossier) -> (r: ResearchFlow<Complete>)
        ensures
            r.job_of() == self.job_of(),
            r.knowledge_base_of() == self.knowledge_base_of(),
            r.identity_of() == self.identity_of(),
            r.vectors_of() == self.vectors_of(),
            r.findings_of() == self.findings_of(),
            r.dossier_of() == Some(dossier),
    {
        ResearchFlow {
            job: self.job,
            knowledge_base: self.knowledge_base,
            identity: self.identity,
            vectors: self.vectors,
            findings: self.findings,
            dossier: Some(dossier),
            _state: PhantomData,
        }
    }
}

impl ResearchFlow<Complete> {
    /// The dossier that the research produced.
    pub fn into_dossier(self) -> (r: Dossier)
        requires
            self.dossier_of() is Some,
        ensures
            Some(r) == self.dossier_of(),
    {
        self.dossier.expect("dossier always set after Stage 4")
    }
}

/// Resume stage: only the job and the knowledge base are known.
pub struct Raw;

/// Resume stage: the profile and the job's requirements are known.
pub struct Ready;

/// Resume stage: the content is tailored to the job.
pub struct Tailored;

/// Resume stage: the resume is composed.
pub struct Composed;

/// The resume pipeline for one job.
pub struct CvFlow<S> {
    pub job: JobEntry,
    pub knowledge_base: String,
    profile: Option<CandidateProfile>,
    requirements: Option<JobRequirements>,
    tailored: Option<TailoredContent>,
    resume: Option<Resume>,
    _state: PhantomData<S>,
}

impl<S> CvFlow<S> {
    /// The job the resume is for.
    pub closed spec fn job_of(&self) -> JobEntry {
        self.job
    }

    /// The candidate's knowledge base.
    pub closed spec fn knowledge_base_of(&self) -> String {
        self.knowledge_base
    }

    /// The candidate's profile, once extracted.
    pub closed spec fn profile_of(&self) -> Option<CandidateProfile> {
        self.profile
    }

    /// The job's requirements, once analysed.
    pub closed spec fn requirements_of(&self) -> Option<JobRequirements> {
        self.requirements
    }

    /// The tailored content, once written.
    pub closed spec fn tailored_of(&self) -> Option<TailoredContent> {
        self.tailored
    }

    /// The resume, once composed.
    pub closed spec fn resume_of(&self) -> Option<Resume> {
        self.resume
    }
}

impl CvFlow<Raw> {
    /// Starts a resume for a job, from the candidate's knowledge base.
    pub fn new(job: JobEntry, knowledge_base: &str) -> (r: CvFlow<Raw>)
        ensures
            r.job_of() == job,
            r.knowledge_base_of()@ == knowledge_base@,
            r.profile_of() is None,
            r.requirements_of() is None,
            r.tailored_of() is None,
            r.resume_of() is None,
    {
        CvFlow {
            job,
            knowledge_base: knowledge_base.to_owned(),
            profile: None,
            requirements: None,
            tailored: None,
            resume: None,
            _state: PhantomData,
        }
    }

    /// Records the extracted profile and the analysed requirements.
    pub fn prepare(self, profile: CandidateProfile, requirements: JobRequirements) -> (r: CvFlow<
        Ready,
    >)
        ensures
            r.job_of() == self.job_of(),
            r.knowledge_base_of() == self.knowledge_base_of(),
            r.profile_of() == Some(profile),
            r.requirements_of() == Some(requirements),
            r.tailored_of() is None,
            r.resume_of() is None,
    {
        CvFlow {
            job: self.job,
            knowledge_base: self.knowledge_base,
            profile: Some(profile),
            requirements: Some(requirements),
            tailored: None,
            resume: None,
            _state: PhantomData,
        }
    }
}

impl CvFlow<Ready> {
    /// The candidate's profile.
    pub fn profile(&self) -> (r: &CandidateProfile)
        requires
            self.profile_of() is Some,
        ensures
            Some(*r) == self.profile_of(),
    {
        self.profile.as_ref().expect("profile always set after prepare()")
    }

    /// The job's requirements.
    pub fn requirements(&self) -> (r: &JobRequirements)
        requires
            self.requirements_of() is Some,
        ensures
            Some(*r) == self.requirements_of(),
    {
        self.requirements.as_ref().expect("requirements always set after prepare()")
    }

    /// Records the tailored content.
    pub fn tailor(self, tailored: TailoredContent) -> (r: CvFlow<Tailored>)
        ensures
            r.job_of() == self.job_of(),
            r.knowledge_base_of() == self.knowledge_base_of(),
            r.profile_of() == self.profile_of(),
            r.requirements_of() == self.requirements_of(),
            r.tailored_of() == Some(tailored),
            r.resume_of() is None,
    {
        CvFlow {
            job: self.job,
            knowledge_base: self.knowledge_base,
            profile: self.profile,
            requirements: self.requirements,
            tailored: Some(tailored),
            resume: None,
            _state: PhantomData,
        }
    }
}

impl CvFlow<Tailored> {
    /// The tailored content.
    pub fn tailored(&self) -> (r: &TailoredContent)
        requires
            self.tailored_of() is Some,
        ensures
            Some(*r) == self.tailored_of(),
    {
        self.tailored.as_ref().expect("tailored always set after tailor()")
    }

    /// Composes the resume from the profile and the tailored content: the
    /// resume is what `composer` answers for them.
    pub fn compose<C: ResumeComposer>(self, composer: &C) -> (r: CvFlow<
        Composed,
    >)
        requires
            self.profile_of() is Some,
            self.tailored_of() is Some,
        ensures
            r.job_of() == self.job_of(),
            r.knowledge_base_of() == self.knowledge_base_of(),
            r.profile_of() == self.profile_of(),
            r.requirements_of() == self.requirements_of(),
            r.tailored_of() == self.tailored_of(),
            r.resume_of() matches Some(res) && call_ensures(
                C::compose,
                (composer, &self.profile_of().unwrap(), &self.tailored_of().unwrap()),
                res,
            ),
    {
        let resume = composer.compose(
            self.profile.as_ref().expect("profile always set after prepare()"),
            self.tailored.as_ref().expect("tailored always set after tailor()"),
        );
        CvFlow {
            job: self.job,
            knowledge_base: self.knowledge_base,
            profile: self.profile,
            requirements: self.requirements,
            tailored: self.tailored,
            resume: Some(resume),
            _state: PhantomData,
        }
    }
}

impl CvFlow<Composed> {
    /// The composed resume; render it with any `ResumeTemplate`.
    pub fn into_resume(self) -> (r: Resume)
        requires
            self.resume_of() is Some,
        ensures
            Some(r) == self.resume_of(),
    {
        self.resume.expect("resume always set after compose()")
    }
}

} // verus!
