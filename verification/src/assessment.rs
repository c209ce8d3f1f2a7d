//! Assessments: which query each request of a signed-in user comes to.
//!
//! The relational store is reached by the caller. A handler here takes the
//! identity that the auth gate attached to the request and names the query
//! to run, or rejects the request.

use crate::error::AppError;
use crate::middleware::{require_user, RequestContext};
use vstd::prelude::*;

verus! {

/// An empty response body.
#[derive(Clone, Copy, Debug, PartialEq, Eq, Structural)]
pub struct ResTemp;

/// The body of a request that creates an assessment.
#[derive(Clone, Debug, PartialEq, Eq)]
pub struct AssessmentCreationRequest {
    pub topics: Vec<String>,
}

/// The attribute that an update sets.
#[derive(Clone, Copy, Debug, PartialEq, Eq, Structural)]
pub enum AssessmentAtrritbutes {
    Started(bool),
    Finished(bool),
}

/// The path of an update request.
#[derive(Clone, Copy, Debug, PartialEq, Eq, Structural)]
pub struct PathObject {
    assessment_id: i64,
}

/// One row of the assessment store.
#[derive(Clone, Copy, Debug, PartialEq, Eq, Structural)]
pub struct Assessment {
    pub id: i64,
    pub user_id: i64,
    pub started_at: Option<i32>,
    pub updated_at: Option<i32>,
}

/// A query on the assessment store, always bound to one user.
#[derive(Clone, Copy, Debug, PartialEq, Eq, Structural)]
pub enum Query {
    /// All assessments of `user_id`.
    ByUser { user_id: i64 },
    /// The assessment `assessment_id`, where it belongs to `user_id`.
    ByAssessmentId { assessment_id: i64, user_id: i64 },
    /// Set the start time of the assessment to `at`, unless it has one.
    UpdateStartTime { assessment_id: i64, user_id: i64, at: i32 },
    /// Set the end time of the assessment to `at`, unless it has one.
    UpdateEndTime { assessment_id: i64, user_id: i64, at: i32 },
}

impl PathObject {
    /// The path that names the assessment `assessment_id`.
    pub fn new(assessment_id: i64) -> (path: PathObject)
        ensures
            path.id() == assessment_id,
    {
        PathObject { assessment_id }
    }

    /// The assessment that the path names.
    pub closed spec fn id(self) -> i64 {
        self.assessment_id
    }

    /// The assessment that the path names.
    pub fn assessment_id(&self) -> (id: i64)
        ensures
            id == self.id(),
    {
        self.assessment_id
    }
}

/// The time column of a timestamp: its low 32 bits. A time that fits in
/// 32 bits is kept as it is.
pub open spec fn time_column(now: i64) -> i32 {
    now as i32
}

/// The query of an update by the signed-in `user_id` at `now`.
pub open spec fn update_query(
    user_id: i64,
    assessment_id: i64,
    body: AssessmentAtrritbutes,
    now: i64,
) -> Query {
    match body {
        AssessmentAtrritbutes::Started(_) => Query::UpdateStartTime {
            assessment_id,
            user_id,
            at: time_column(now),
        },
        AssessmentAtrritbutes::Finished(_) => Query::UpdateEndTime {
            assessment_id,
            user_id,
            at: time_column(now),
        },
    }
}

/// Lists the assessments of the signed-in user.
pub fn get_all(context: Option<RequestContext>) -> (query: Result<Query, AppError>)
    ensures
        query == match context {
            Some(c) => Ok::<Query, AppError>(Query::ByUser { user_id: c.user_id }),
            None => Err::<Query, AppError>(AppError::Unauthorized),
        },
{
    match require_user(context) {
        Ok(user_id) => Ok(Query::ByUser { user_id }),
        Err(e) => Err(e),
    }
}

/// Answers a creation request: with the assessments of the signed-in user.
pub fn create(context: Option<RequestContext>) -> (query: Result<Query, AppError>)
    ensures
        query == match context {
            Some(c) => Ok::<Query, AppError>(Query::ByUser { user_id: c.user_id }),
            None => Err::<Query, AppError>(AppError::Unauthorized),
        },
{
    get_all(context)
}

/// Reads one assessment of the signed-in user.
pub fn get_one(assessment_id: i64, context: Option<RequestContext>) -> (query: Result<
    Query,
    AppError,
>)
    ensures
        query == match context {
            Some(c) => Ok::<Query, AppError>(
                Query::ByAssessmentId { assessment_id, user_id: c.user_id },
            ),
            None => Err::<Query, AppError>(AppError::Unauthorized),
        },
{
    match require_user(context) {
        Ok(user_id) => Ok(Query::ByAssessmentId { assessment_id, user_id }),
        Err(e) => Err(e),
    }
}

/// Starts or finishes an assessment of the signed-in user at `now`.
pub fn update(
    context: Option<RequestContext>,
    path: &PathObject,
    body: AssessmentAtrritbutes,
    now: i64,
) -> (query: Result<Query, AppError>)
    ensures
        query == match context {
            Some(c) => Ok::<Query, AppError>(update_query(c.user_id, path.id(), body, now)),
            None => Err::<Query, AppError>(AppError::Unauthorized),
        },
{
    match require_user(context) {
        Ok(user_id) => {
            let at = #[verifier::truncate]
            (now as i32);
            let assessment_id = path.assessment_id();
            Ok(
                match body {
                    AssessmentAtrritbutes::Started(_) => Query::UpdateStartTime {
                        assessment_id,
                        user_id,
                        at,
                    },
                    AssessmentAtrritbutes::Finished(_) => Query::UpdateEndTime {
                        assessment_id,
                        user_id,
                        at,
                    },
                },
            )
        },
        Err(e) => Err(e),
    }
}

/// A time that fits in 32 bits is stored as it is.
pub proof fn lemma_time_column_keeps_small_times(now: i64)
    requires
        i32::MIN <= now <= i32::MAX,
    ensures
        time_column(now) == now,
{
}

} // verus!
