//! The task lifecycle: creation, assignment and completion.
//!
//! The intended path is pending, then processing, then completed.  As
//! designed, assignment and completion are deliberately open: any caller
//! may assign any existing task to any device and may complete any
//! existing task, with no capability, activity or ordering check.  In
//! particular completing a task straight from pending is accepted.  The
//! progress lemmas below state the part of the lifecycle that does hold
//! unconditionally: completion never moves a task backwards, and neither
//! does assignment of a task that is not yet completed.

use vstd::prelude::*;

use crate::errors::ErrorCode;
use crate::ids::Identity;
use crate::network::has_task;
use crate::network::task_has_key;
use crate::network::task_index;
use crate::network::Network;
use crate::records::status_rank;
use crate::records::Task;
use crate::records::TaskRequirements;
use crate::records::TaskResult;
use crate::records::TaskStatus;
use crate::records::MAX_STRING_BYTES;

verus! {

/// The task record creation stores: pending, started at the supplied
/// clock reading, with no assignee, no end time and no result yet.
pub open spec fn fresh_task(
    owner: Identity,
    task_id: Vec<u8>,
    requirements: TaskRequirements,
    now: u64,
) -> Task {
    Task {
        owner,
        task_id,
        requirements,
        assigned_device: None,
        status: TaskStatus::Pending,
        start_time: now,
        end_time: None,
        result: None,
        reward_amount: 0,
    }
}

/// How assignment rewrites a task: the device is recorded and the status
/// becomes processing; nothing else changes.
pub open spec fn task_assigned(t: Task, device: Identity) -> Task {
    Task { assigned_device: Some(device), status: TaskStatus::Processing, ..t }
}

/// How completion rewrites a task: the result is stored, the status
/// becomes completed and the end time is stamped; nothing else changes.
pub open spec fn task_completed(t: Task, result: TaskResult, now: u64) -> Task {
    Task { result: Some(result), status: TaskStatus::Completed, end_time: Some(now), ..t }
}

/// Why a task creation is refused, if it is: an oversized `task_id` is
/// rejected first, then a duplicate (owner, task id) key.
pub open spec fn create_task_error(
    s: Network,
    owner: Identity,
    task_id: Seq<u8>,
) -> Option<ErrorCode> {
    if task_id.len() > MAX_STRING_BYTES {
        Some(ErrorCode::InvalidStringLength)
    } else if has_task(s.tasks@, owner, task_id) {
        Some(ErrorCode::AlreadyExists)
    } else {
        None
    }
}

/// Progress law, assignment half: assigning a task that is not yet
/// completed never moves its status backwards on the lifecycle path.
/// (Assigning an already completed task would move it back to
/// processing; the law therefore leaves completed tasks out.)
pub proof fn lemma_assign_never_regresses(t: Task, device: Identity)
    requires
        t.status != TaskStatus::Completed,
    ensures
        status_rank(task_assigned(t, device).status) >= status_rank(t.status),
{
}

/// Progress law, completion half: completing a task never moves its
/// status backwards on the lifecycle path, whatever state it was in —
/// completed is the last state.
pub proof fn lemma_complete_never_regresses(t: Task, result: TaskResult, now: u64)
    ensures
        status_rank(task_completed(t, result, now).status) >= status_rank(t.status),
        task_completed(t, result, now).status == TaskStatus::Completed,
{
}

impl Network {
    /// Creates a task under the key (`owner`, `task_id`).
    ///
    /// Fails with `InvalidStringLength` if `task_id` exceeds
    /// [`MAX_STRING_BYTES`] bytes and with `AlreadyExists` if the key is
    /// already taken; a failed creation changes nothing.  Otherwise
    /// stores exactly [`fresh_task`]: pending, `start_time` set to the
    /// supplied clock reading `now`, nothing assigned and no result.
    pub fn create_task(
        &mut self,
        owner: Identity,
        task_id: Vec<u8>,
        requirements: TaskRequirements,
        now: u64,
    ) -> (r: Result<(), ErrorCode>)
        requires
            old(self).wf(),
        ensures
            final(self).wf(),
            r is Err <==> create_task_error(*old(self), owner, task_id@) is Some,
            r matches Err(e) ==> Some(e) == create_task_error(*old(self), owner, task_id@),
            r is Err ==> *final(self) == *old(self),
            r is Ok ==> final(self).tasks@ == old(self).tasks@.push(
                fresh_task(owner, task_id, requirements, now),
            ),
            final(self).registry == old(self).registry,
            final(self).devices@ == old(self).devices@,
    {
        if task_id.len() > MAX_STRING_BYTES {
            return Err(ErrorCode::InvalidStringLength);
        }
        if self.find_task(owner, &task_id).is_some() {
            return Err(ErrorCode::AlreadyExists);
        }
        let t = Task {
            owner,
            task_id,
            requirements,
            assigned_device: None,
            status: TaskStatus::Pending,
            start_time: now,
            end_time: None,
            result: None,
            reward_amount: 0,
        };
        self.tasks.push(t);
        Ok(())
    }

    /// Assigns the task under (`owner`, `task_id`) to `device`.
    ///
    /// Fails with `NotFound`, changing nothing, if no such task exists.
    /// Otherwise the task becomes exactly [`task_assigned`]: the device
    /// recorded and the status processing.  By design no other check is
    /// made: the caller is not authenticated, and the device's
    /// capabilities, activity and very existence are not consulted.
    pub fn assign_task(&mut self, owner: Identity, task_id: &Vec<u8>, device: Identity) -> (r:
        Result<(), ErrorCode>)
        requires
            old(self).wf(),
        ensures
            final(self).wf(),
            r is Err <==> !has_task(old(self).tasks@, owner, task_id@),
            r is Err ==> r == Result::<(), ErrorCode>::Err(ErrorCode::NotFound),
            r is Err ==> *final(self) == *old(self),
            r is Ok ==> final(self).tasks@ == old(self).tasks@.update(
                task_index(old(self).tasks@, owner, task_id@),
                task_assigned(
                    old(self).tasks@[task_index(old(self).tasks@, owner, task_id@)],
                    device,
                ),
            ),
            final(self).registry == old(self).registry,
            final(self).devices@ == old(self).devices@,
    {
        let i = match self.find_task(owner, task_id) {
            Some(i) => i,
            None => return Err(ErrorCode::NotFound),
        };
        let t = &mut self.tasks[i];
        t.assigned_device = Some(device);
        t.status = TaskStatus::Processing;
        proof {
            let tasks = old(self).tasks@;
            assert(task_has_key(tasks[i as int], owner, task_id@));
            assert(has_task(tasks, owner, task_id@));
            let j = task_index(tasks, owner, task_id@);
            assert(task_has_key(tasks[j], owner, task_id@));
            assert(j == i as int);
        }
        Ok(())
    }

    /// Completes the task under (`owner`, `task_id`) with `result`.
    ///
    /// Fails with `NotFound`, changing nothing, if no such task exists.
    /// Otherwise the task becomes exactly [`task_completed`]: the result
    /// stored, the status completed and `end_time` set to the supplied
    /// clock reading `now`.  By design no ordering or authorization check
    /// is made: completing a task that was never assigned is accepted.
    pub fn complete_task(
        &mut self,
        owner: Identity,
        task_id: &Vec<u8>,
        result: TaskResult,
        now: u64,
    ) -> (r: Result<(), ErrorCode>)
        requires
            old(self).wf(),
        ensures
            final(self).wf(),
            r is Err <==> !has_task(old(self).tasks@, owner, task_id@),
            r is Err ==> r == Result::<(), ErrorCode>::Err(ErrorCode::NotFound),
            r is Err ==> *final(self) == *old(self),
            r is Ok ==> final(self).tasks@ == old(self).tasks@.update(
                task_index(old(self).tasks@, owner, task_id@),
                task_completed(
                    old(self).tasks@[task_index(old(self).tasks@, owner, task_id@)],
                    result,
                    now,
                ),
            ),
            final(self).registry == old(self).registry,
            final(self).devices@ == old(self).devices@,
    {
        let i = match self.find_task(owner, task_id) {
            Some(i) => i,
            None => return Err(ErrorCode::NotFound),
        };
        let t = &mut self.tasks[i];
        t.result = Some(result);
        t.status = TaskStatus::Completed;
        t.end_time = Some(now);
        proof {
            let tasks = old(self).tasks@;
            assert(task_has_key(tasks[i as int], owner, task_id@));
            assert(has_task(tasks, owner, task_id@));
            let j = task_index(tasks, owner, task_id@);
            assert(task_has_key(tasks[j], owner, task_id@));
            assert(j == i as int);
        }
        Ok(())
    }
}

} // verus!
