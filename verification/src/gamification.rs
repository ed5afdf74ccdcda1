//! The gamification engine: session points, level and streak state, and the
//! badge/achievement rule templates evaluated against a profile snapshot.
//!
//! Durations are in tenths of an hour, focus scores in hundredths, days as
//! epoch day numbers and timestamps as plain integers supplied by the
//! caller. The engine never mutates a profile: it computes the next profile
//! value and returns it.

use vstd::prelude::*;

verus! {

#[derive(Clone, Copy, Debug, PartialEq, Eq, Structural)]
pub enum Rarity {
    Common,
    Rare,
    Epic,
    Legendary,
}

pub struct Badge {
    pub name: String,
    pub description: String,
    pub icon: String,
    /// The timestamp the caller supplied when the badge was earned.
    pub earned_at: i64,
    pub rarity: Rarity,
}

pub struct Achievement {
    pub name: String,
    pub description: String,
    pub points: i64,
    /// Progress toward completion in hundredths; 100 once completed.
    pub progress: i64,
    pub completed: bool,
    pub completed_at: Option<i64>,
}

pub struct StudySession {
    /// Epoch day the session was recorded on.
    pub date: i64,
    /// In tenths of an hour.
    pub duration_hours: i64,
    pub subjects: Vec<String>,
    pub points_earned: i64,
    /// In hundredths.
    pub focus_score: i64,
}

pub struct StudentProfile {
    pub student_name: String,
    pub total_points: i64,
    pub level: i64,
    pub current_streak: i64,
    pub longest_streak: i64,
    pub badges: Vec<Badge>,
    pub achievements: Vec<Achievement>,
    pub study_sessions: Vec<StudySession>,
    /// Epoch day of the last recorded activity.
    pub last_activity: i64,
}

pub struct LeaderboardEntry {
    pub rank: usize,
    pub student_name: String,
    pub total_points: i64,
    pub level: i64,
    pub badge_count: usize,
}

pub struct StudySessionRequest {
    pub student_name: String,
    /// In tenths of an hour.
    pub duration_hours: i64,
    pub subjects: Vec<String>,
    /// In hundredths.
    pub focus_score: i64,
    pub attendance_today: bool,
}

pub struct GamificationResponse {
    pub profile: StudentProfile,
    pub points_earned: i64,
    pub level_up: bool,
    pub new_badges: Vec<Badge>,
    pub new_achievements: Vec<Achievement>,
    pub leaderboard_position: usize,
}

/// A rule for awarding an achievement; payloads are targets in the same
/// fixed-point units as the profile fields they are compared against.
pub enum AchievementCondition {
    /// Total recorded study hours reach the target (tenths).
    TotalStudyHours(i64),
    /// The current streak reaches the target.
    StudyStreak(i64),
    /// Stands in for attendance tracking: the current streak reaches the
    /// target.
    PerfectAttendance(i64),
    /// Total points reach the target.
    PointsEarned(i64),
    /// The number of recorded sessions reaches the target.
    SessionsCompleted(i64),
    /// Subject-level tracking is not implemented: never met.
    SubjectMastery(String, i64),
}

/// A rule for awarding a badge.
pub enum BadgeCondition {
    /// The profile's session count is exactly one.
    FirstStudySession,
    /// Stands in for leaderboard data: total points above 500.
    WeeklyChampion,
    /// The current session lasted at least the target (tenths).
    MarathonStudier(i64),
    /// A streak of at least seven days together with attendance today.
    PerfectWeek,
    /// The current session covered at least three subjects.
    SubjectExpert(String),
    /// The evaluation hour is before noon.
    EarlyBird,
    /// The evaluation hour is 18 or later.
    NightOwl,
}

/// An immutable achievement rule, loaded once at engine construction.
pub struct AchievementTemplate {
    pub name: String,
    pub description: String,
    pub points: i64,
    pub condition: AchievementCondition,
}

/// An immutable badge rule, loaded once at engine construction.
pub struct BadgeTemplate {
    pub name: String,
    pub description: String,
    pub icon: String,
    pub rarity: Rarity,
    pub condition: BadgeCondition,
}

pub struct GamificationEngine {
    pub achievements: Vec<AchievementTemplate>,
    pub badges: Vec<BadgeTemplate>,
}

/// Total recorded study time, in tenths.
pub open spec fn total_study_hours(sessions: Seq<StudySession>) -> int
    decreases sessions.len(),
{
    if sessions.len() == 0 {
        0
    } else {
        total_study_hours(sessions.drop_last()) + sessions.last().duration_hours
    }
}

/// Points for one session: one point per six minutes, a fifth of the focus
/// score, five per subject, 25 for attending class and 15 for a session over
/// two hours, floored at zero. The focus quotient truncates toward zero.
pub open spec fn session_points(s: StudySessionRequest) -> int {
    let focus_bonus = if s.focus_score >= 0 {
        s.focus_score / 5
    } else {
        -((-s.focus_score) / 5)
    };
    let raw = s.duration_hours + focus_bonus + s.subjects@.len() * 5 + (if s.attendance_today {
        25int
    } else {
        0int
    }) + (if s.duration_hours > 20 {
        15int
    } else {
        0int
    });
    if raw >= 0 {
        raw
    } else {
        0
    }
}

/// The streak state machine: the same day keeps the streak, exactly the next
/// day extends it, any other gap (or a first session) resets it to one.
pub open spec fn next_streak(current: int, last_activity_day: int, today: int) -> int {
    if today == last_activity_day {
        current
    } else if today == last_activity_day + 1 {
        current + 1
    } else {
        1
    }
}

/// The bounds under which every engine computation stays within `i64`.
pub open spec fn session_request_bounded(s: StudySessionRequest) -> bool {
    &&& -1_000_000_000 <= s.duration_hours <= 1_000_000_000
    &&& -1_000_000_000 <= s.focus_score <= 1_000_000_000
    &&& s.subjects@.len() <= 1_000_000
}

/// The bounds the engine asks of a profile it advances; the data model keeps
/// streaks nonnegative.
pub open spec fn profile_bounded(p: StudentProfile) -> bool {
    &&& 0 <= p.current_streak <= 1_000_000_000
    &&& 0 <= p.longest_streak <= 1_000_000_000
    &&& -1_000_000_000_000 <= p.total_points <= 1_000_000_000_000
    &&& -1_000_000_000_000 <= p.last_activity <= 1_000_000_000_000
    &&& p.study_sessions@.len() <= 1_000_000
    &&& forall|i: int|
        0 <= i < p.study_sessions@.len() ==> -1_000_000_000 <= (
        #[trigger] p.study_sessions@[i]).duration_hours <= 1_000_000_000
}

/// Integer square root by incremental search.
fn isqrt_i64(q: i64) -> (r: i64)
    requires
        0 <= q <= 100_000_000_000_000_000,
    ensures
        0 <= r <= 320_000_000,
        r * r <= q < (r + 1) * (r + 1),
{
    let mut root: i64 = 0;
    let mut next: i64 = 1;
    while next <= q
        invariant
            0 <= root <= q <= 100_000_000_000_000_000,
            root * root <= q,
            next == (root + 1) * (root + 1),
        decreases q - root,
    {
        root = root + 1;
        proof {
            assert(root <= 320_000_000) by (nonlinear_arith)
                requires
                    root >= 1 && root * root <= 100_000_000_000_000_000,
            ;
            assert(root <= root * root) by (nonlinear_arith)
                requires
                    root >= 1,
            ;
            assert((root + 1) * (root + 1) <= 200_000_000_000_000_000) by (nonlinear_arith)
                requires
                    0 <= root <= 320_000_000,
            ;
        }
        next = (root + 1) * (root + 1);
    }
    proof {
        assert(root <= 320_000_000) by (nonlinear_arith)
            requires
                root >= 0 && root * root <= 100_000_000_000_000_000,
        ;
    }
    root
}

/// Whether some badge in the sequence carries the given name.
pub open spec fn badge_name_owned(owned: Seq<Badge>, name: Seq<char>) -> bool {
    exists|i: int| 0 <= i < owned.len() && owned[i].name@ == name
}

/// Whether some achievement in the sequence carries the given name.
pub open spec fn achievement_name_owned(owned: Seq<Achievement>, name: Seq<char>) -> bool {
    exists|i: int| 0 <= i < owned.len() && owned[i].name@ == name
}

fn has_badge_named(owned: &Vec<Badge>, name: &String) -> (r: bool)
    ensures
        r == badge_name_owned(owned@, name@),
{
    let mut i: usize = 0;
    while i < owned.len()
        invariant
            i <= owned@.len(),
            forall|j: int| 0 <= j < i ==> (#[trigger] owned@[j]).name@ != name@,
        decreases owned@.len() - i,
    {
        if owned[i].name == *name {
            return true;
        }
        i = i + 1;
    }
    false
}

fn has_achievement_named(owned: &Vec<Achievement>, name: &String) -> (r: bool)
    ensures
        r == achievement_name_owned(owned@, name@),
{
    let mut i: usize = 0;
    while i < owned.len()
        invariant
            i <= owned@.len(),
            forall|j: int| 0 <= j < i ==> (#[trigger] owned@[j]).name@ != name@,
        decreases owned@.len() - i,
    {
        if owned[i].name == *name {
            return true;
        }
        i = i + 1;
    }
    false
}

/// Sums recorded session durations, in tenths.
fn sum_session_hours(sessions: &Vec<StudySession>) -> (r: i64)
    requires
        sessions@.len() <= 2_000_000,
        forall|i: int|
            0 <= i < sessions@.len() ==> -1_000_000_000 <= (
            #[trigger] sessions@[i]).duration_hours <= 1_000_000_000,
    ensures
        r == total_study_hours(sessions@),
{
    let mut total: i64 = 0;
    let mut i: usize = 0;
    while i < sessions.len()
        invariant
            i <= sessions@.len() <= 2_000_000,
            forall|j: int|
                0 <= j < sessions@.len() ==> -1_000_000_000 <= (
                #[trigger] sessions@[j]).duration_hours <= 1_000_000_000,
            total == total_study_hours(sessions@.take(i as int)),
            -2_000_000_000_000_000 <= total <= 2_000_000_000_000_000,
        decreases sessions@.len() - i,
    {
        let ghost prev = sessions@.take(i as int);
        total = total + sessions[i].duration_hours;
        proof {
            assert(sessions@.take(i + 1).drop_last() =~= prev);
            assert(prev.len() * 1_000_000_000 >= total_study_hours(prev)
                >= -(prev.len() * 1_000_000_000)) by {
                lemma_total_hours_bounded(prev);
            }
        }
        i = i + 1;
    }
    proof {
        assert(sessions@.take(sessions@.len() as int) =~= sessions@);
    }
    total
}

proof fn lemma_total_hours_bounded(sessions: Seq<StudySession>)
    requires
        forall|i: int|
            0 <= i < sessions.len() ==> -1_000_000_000 <= (
            #[trigger] sessions[i]).duration_hours <= 1_000_000_000,
    ensures
        -(sessions.len() * 1_000_000_000) <= total_study_hours(sessions) <= sessions.len()
            * 1_000_000_000,
    decreases sessions.len(),
{
    if sessions.len() > 0 {
        lemma_total_hours_bounded(sessions.drop_last());
    }
}

/// The weaker bounds the rule evaluator needs: only the sessions are read
/// for sums and counts.
pub open spec fn eval_profile_ok(p: StudentProfile) -> bool {
    &&& p.study_sessions@.len() <= 2_000_000
    &&& forall|i: int|
        0 <= i < p.study_sessions@.len() ==> -1_000_000_000 <= (
        #[trigger] p.study_sessions@[i]).duration_hours <= 1_000_000_000
}

/// Whether a badge rule holds for the evaluation snapshot: the profile's
/// session count, points and streak, the session being recorded, and the
/// hour of day at evaluation.
pub open spec fn badge_earned(
    c: BadgeCondition,
    sessions_count: int,
    total_points: int,
    streak: int,
    s: StudySessionRequest,
    hour: int,
) -> bool {
    match c {
        BadgeCondition::FirstStudySession => sessions_count == 1,
        BadgeCondition::WeeklyChampion => total_points > 500,
        BadgeCondition::MarathonStudier(h) => s.duration_hours >= h,
        BadgeCondition::PerfectWeek => streak >= 7 && s.attendance_today,
        BadgeCondition::SubjectExpert(_) => s.subjects@.len() >= 3,
        BadgeCondition::EarlyBird => hour < 12,
        BadgeCondition::NightOwl => hour >= 18,
    }
}

/// Whether an achievement rule has reached full progress. For a positive
/// target this is exactly a progress ratio of at least one.
pub open spec fn achievement_met(
    c: AchievementCondition,
    total_hours: int,
    streak: int,
    total_points: int,
    sessions_count: int,
) -> bool {
    match c {
        AchievementCondition::TotalStudyHours(t) => total_hours >= t,
        AchievementCondition::StudyStreak(t) => streak >= t,
        AchievementCondition::PerfectAttendance(t) => streak >= t,
        AchievementCondition::PointsEarned(t) => total_points >= t,
        AchievementCondition::SessionsCompleted(t) => sessions_count >= t,
        AchievementCondition::SubjectMastery(_, _) => false,
    }
}

/// The badge a template turns into when awarded.
pub open spec fn badge_of(t: BadgeTemplate, now_ts: i64) -> Badge {
    Badge {
        name: t.name,
        description: t.description,
        icon: t.icon,
        earned_at: now_ts,
        rarity: t.rarity,
    }
}

/// The achievement a template turns into when awarded: completed, at full
/// progress.
pub open spec fn achievement_of(t: AchievementTemplate, now_ts: i64) -> Achievement {
    Achievement {
        name: t.name,
        description: t.description,
        points: t.points,
        progress: 100,
        completed: true,
        completed_at: Some(now_ts),
    }
}

/// A template awards its badge when the name is not yet owned and its rule
/// holds; a badge is never re-awarded.
pub open spec fn badge_awardable(
    t: BadgeTemplate,
    owned: Seq<Badge>,
    sessions_count: int,
    total_points: int,
    streak: int,
    s: StudySessionRequest,
    hour: int,
) -> bool {
    !badge_name_owned(owned, t.name@) && badge_earned(
        t.condition,
        sessions_count,
        total_points,
        streak,
        s,
        hour,
    )
}

pub open spec fn achievement_awardable(
    t: AchievementTemplate,
    owned: Seq<Achievement>,
    total_hours: int,
    streak: int,
    total_points: int,
    sessions_count: int,
) -> bool {
    !achievement_name_owned(owned, t.name@) && achievement_met(
        t.condition,
        total_hours,
        streak,
        total_points,
        sessions_count,
    )
}

/// Exactly the badges the template list awards, in template order.
pub open spec fn badges_awarded(
    templates: Seq<BadgeTemplate>,
    owned: Seq<Badge>,
    sessions_count: int,
    total_points: int,
    streak: int,
    s: StudySessionRequest,
    hour: int,
    now_ts: i64,
) -> Seq<Badge>
    decreases templates.len(),
{
    if templates.len() == 0 {
        Seq::<Badge>::empty()
    } else {
        badges_awarded(
            templates.drop_last(),
            owned,
            sessions_count,
            total_points,
            streak,
            s,
            hour,
            now_ts,
        ) + if badge_awardable(templates.last(), owned, sessions_count, total_points, streak, s, hour) {
            seq![badge_of(templates.last(), now_ts)]
        } else {
            Seq::<Badge>::empty()
        }
    }
}

/// Exactly the achievements the template list awards, in template order.
pub open spec fn achievements_awarded(
    templates: Seq<AchievementTemplate>,
    owned: Seq<Achievement>,
    total_hours: int,
    streak: int,
    total_points: int,
    sessions_count: int,
    now_ts: i64,
) -> Seq<Achievement>
    decreases templates.len(),
{
    if templates.len() == 0 {
        Seq::<Achievement>::empty()
    } else {
        achievements_awarded(
            templates.drop_last(),
            owned,
            total_hours,
            streak,
            total_points,
            sessions_count,
            now_ts,
        ) + if achievement_awardable(
            templates.last(),
            owned,
            total_hours,
            streak,
            total_points,
            sessions_count,
        ) {
            seq![achievement_of(templates.last(), now_ts)]
        } else {
            Seq::<Achievement>::empty()
        }
    }
}

/// Template names are pairwise distinct, so a rule can be identified by the
/// name it awards.
pub open spec fn badge_names_unique(ts: Seq<BadgeTemplate>) -> bool {
    forall|i: int, j: int|
        0 <= i < j < ts.len() ==> (#[trigger] ts[i]).name@ != (#[trigger] ts[j]).name@
}

pub open spec fn achievement_names_unique(ts: Seq<AchievementTemplate>) -> bool {
    forall|i: int, j: int|
        0 <= i < j < ts.len() ==> (#[trigger] ts[i]).name@ != (#[trigger] ts[j]).name@
}

impl GamificationEngine {
    /// The fixed rule set, loaded once: five achievements and six badges,
    /// each under a distinct name.
    pub fn new() -> (r: Self)
        ensures
            r.achievements@.len() == 5,
            achievement_names_unique(r.achievements@),
            r.achievements@[0].name@ == "First Steps"@,
            r.achievements@[0].points == 50,
            r.achievements@[0].condition == AchievementCondition::SessionsCompleted(1),
            r.achievements@[1].name@ == "Dedicated Learner"@,
            r.achievements@[1].points == 200,
            r.achievements@[1].condition == AchievementCondition::TotalStudyHours(500),
            r.achievements@[2].name@ == "Weekly Warrior"@,
            r.achievements@[2].points == 150,
            r.achievements@[2].condition == AchievementCondition::StudyStreak(7),
            r.achievements@[3].name@ == "Perfect Month"@,
            r.achievements@[3].points == 500,
            r.achievements@[3].condition == AchievementCondition::PerfectAttendance(30),
            r.achievements@[4].name@ == "Point Master"@,
            r.achievements@[4].points == 300,
            r.achievements@[4].condition == AchievementCondition::PointsEarned(1000),
            r.badges@.len() == 6,
            badge_names_unique(r.badges@),
            r.badges@[0].name@ == "First Session"@,
            r.badges@[0].rarity == Rarity::Common,
            r.badges@[0].condition == BadgeCondition::FirstStudySession,
            r.badges@[1].name@ == "Weekly Champion"@,
            r.badges@[1].rarity == Rarity::Rare,
            r.badges@[1].condition == BadgeCondition::WeeklyChampion,
            r.badges@[2].name@ == "Marathon Studier"@,
            r.badges@[2].rarity == Rarity::Epic,
            r.badges@[2].condition == BadgeCondition::MarathonStudier(50),
            r.badges@[3].name@ == "Perfect Week"@,
            r.badges@[3].rarity == Rarity::Rare,
            r.badges@[3].condition == BadgeCondition::PerfectWeek,
            r.badges@[4].name@ == "Early Bird"@,
            r.badges@[4].rarity == Rarity::Common,
            r.badges@[4].condition == BadgeCondition::EarlyBird,
            r.badges@[5].name@ == "Night Owl"@,
            r.badges@[5].rarity == Rarity::Common,
            r.badges@[5].condition == BadgeCondition::NightOwl,
    {
        let mut achievements: Vec<AchievementTemplate> = Vec::new();
        achievements.push(
            AchievementTemplate {
                name: "First Steps".to_owned(),
                description: "Complete your first study session".to_owned(),
                points: 50,
                condition: AchievementCondition::SessionsCompleted(1),
            },
        );
        achievements.push(
            AchievementTemplate {
                name: "Dedicated Learner".to_owned(),
                description: "Reach 50 total study hours".to_owned(),
                points: 200,
                condition: AchievementCondition::TotalStudyHours(500),
            },
        );
        achievements.push(
            AchievementTemplate {
                name: "Weekly Warrior".to_owned(),
                description: "Maintain a 7-day study streak".to_owned(),
                points: 150,
                condition: AchievementCondition::StudyStreak(7),
            },
        );
        achievements.push(
            AchievementTemplate {
                name: "Perfect Month".to_owned(),
                description: "Perfect attendance for 30 days".to_owned(),
                points: 500,
                condition: AchievementCondition::PerfectAttendance(30),
            },
        );
        achievements.push(
            AchievementTemplate {
                name: "Point Master".to_owned(),
                description: "Earn 1000 total points".to_owned(),
                points: 300,
                condition: AchievementCondition::PointsEarned(1000),
            },
        );

        let mut badges: Vec<BadgeTemplate> = Vec::new();
        badges.push(
            BadgeTemplate {
                name: "First Session".to_owned(),
                description: "Completed your first study session".to_owned(),
                icon: "target".to_owned(),
                rarity: Rarity::Common,
                condition: BadgeCondition::FirstStudySession,
            },
        );
        badges.push(
            BadgeTemplate {
                name: "Weekly Champion".to_owned(),
                description: "Top performer for the week".to_owned(),
                icon: "trophy".to_owned(),
                rarity: Rarity::Rare,
                condition: BadgeCondition::WeeklyChampion,
            },
        );
        badges.push(
            BadgeTemplate {
                name: "Marathon Studier".to_owned(),
                description: "Study for 5+ hours in one session".to_owned(),
                icon: "runner".to_owned(),
                rarity: Rarity::Epic,
                condition: BadgeCondition::MarathonStudier(50),
            },
        );
        badges.push(
            BadgeTemplate {
                name: "Perfect Week".to_owned(),
                description: "Perfect attendance and study goals for a week".to_owned(),
                icon: "star".to_owned(),
                rarity: Rarity::Rare,
                condition: BadgeCondition::PerfectWeek,
            },
        );
        badges.push(
            BadgeTemplate {
                name: "Early Bird".to_owned(),
                description: "Complete 10 morning study sessions".to_owned(),
                icon: "sunrise".to_owned(),
                rarity: Rarity::Common,
                condition: BadgeCondition::EarlyBird,
            },
        );
        badges.push(
            BadgeTemplate {
                name: "Night Owl".to_owned(),
                description: "Complete 10 evening study sessions".to_owned(),
                icon: "moon".to_owned(),
                rarity: Rarity::Common,
                condition: BadgeCondition::NightOwl,
            },
        );

        proof {
            reveal_strlit("First Steps");
            reveal_strlit("Dedicated Learner");
            reveal_strlit("Weekly Warrior");
            reveal_strlit("Perfect Month");
            reveal_strlit("Point Master");
            reveal_strlit("First Session");
            reveal_strlit("Weekly Champion");
            reveal_strlit("Marathon Studier");
            reveal_strlit("Perfect Week");
            reveal_strlit("Early Bird");
            reveal_strlit("Night Owl");
            // The names have pairwise different lengths, so they are
            // pairwise distinct.
            assert(achievements@[0].name@.len() == 11);
            assert(achievements@[1].name@.len() == 17);
            assert(achievements@[2].name@.len() == 14);
            assert(achievements@[3].name@.len() == 13);
            assert(achievements@[4].name@.len() == 12);
            assert(badges@[0].name@.len() == 13);
            assert(badges@[1].name@.len() == 15);
            assert(badges@[2].name@.len() == 16);
            assert(badges@[3].name@.len() == 12);
            assert(badges@[4].name@.len() == 10);
            assert(badges@[5].name@.len() == 9);
            assert forall|i: int, j: int|
                0 <= i < j < achievements@.len() implies (#[trigger] achievements@[i]).name@ != (
            #[trigger] achievements@[j]).name@ by {
                assert(achievements@[i].name@.len() != achievements@[j].name@.len());
            }
            assert forall|i: int, j: int|
                0 <= i < j < badges@.len() implies (#[trigger] badges@[i]).name@ != (
            #[trigger] badges@[j]).name@ by {
                assert(badges@[i].name@.len() != badges@[j].name@.len());
            }
        }
        Self { achievements, badges }
    }

    /// Points for one recorded session, per the fixed formula.
    pub fn calculate_points(&self, session: &StudySessionRequest) -> (r: i64)
        requires
            session_request_bounded(*session),
        ensures
            r == session_points(*session),
            r >= 0,
    {
        let mut points: i64 = session.duration_hours;
        let focus_bonus: i64 = if session.focus_score >= 0 {
            session.focus_score / 5
        } else {
            -((-session.focus_score) / 5)
        };
        points = points + focus_bonus;
        points = points + (session.subjects.len() as i64) * 5;

        if session.attendance_today {
            points = points + 25;
        }
        if session.duration_hours > 20 {
            points = points + 15;
        }

        if points >= 0 {
            points
        } else {
            0
        }
    }

    /// The level for a point total: `floor(sqrt(points / 100)) + 1`,
    /// monotonically non-decreasing in points, and one for any negative
    /// total.
    pub fn calculate_level(&self, total_points: i64) -> (r: i64)
        requires
            total_points <= 1_000_000_000_000_000,
        ensures
            r >= 1,
            total_points >= 0 ==> (r - 1) * (r - 1) <= total_points / 100 < r * r,
            total_points < 0 ==> r == 1,
    {
        if total_points < 0 {
            return 1;
        }
        let q = total_points / 100;
        let root = isqrt_i64(q);
        root + 1
    }

    /// Evaluates every badge template against the given profile snapshot and
    /// the session being recorded, skipping names the profile already owns.
    /// Returns the new badges to merge, without touching the profile.
    pub fn check_badges(
        &self,
        profile: &StudentProfile,
        session: &StudySessionRequest,
        hour_of_day: i64,
        now_ts: i64,
    ) -> (r: Vec<Badge>)
        ensures
            r@ == badges_awarded(
                self.badges@,
                profile.badges@,
                profile.study_sessions@.len() as int,
                profile.total_points as int,
                profile.current_streak as int,
                *session,
                hour_of_day as int,
                now_ts,
            ),
    {
        let mut new_badges: Vec<Badge> = Vec::new();
        let total_sessions = profile.study_sessions.len();
        let mut i: usize = 0;
        while i < self.badges.len()
            invariant
                i <= self.badges@.len(),
                total_sessions == profile.study_sessions@.len(),
                new_badges@ == badges_awarded(
                    self.badges@.take(i as int),
                    profile.badges@,
                    profile.study_sessions@.len() as int,
                    profile.total_points as int,
                    profile.current_streak as int,
                    *session,
                    hour_of_day as int,
                    now_ts,
                ),
            decreases self.badges@.len() - i,
        {
            let t = &self.badges[i];
            if !has_badge_named(&profile.badges, &t.name) {
                let earned = match &t.condition {
                    BadgeCondition::FirstStudySession => total_sessions == 1,
                    BadgeCondition::WeeklyChampion => profile.total_points > 500,
                    BadgeCondition::MarathonStudier(h) => session.duration_hours >= *h,
                    BadgeCondition::PerfectWeek => profile.current_streak >= 7
                        && session.attendance_today,
                    BadgeCondition::SubjectExpert(_) => session.subjects.len() >= 3,
                    BadgeCondition::EarlyBird => hour_of_day < 12,
                    BadgeCondition::NightOwl => hour_of_day >= 18,
                };
                if earned {
                    new_badges.push(
                        Badge {
                            name: t.name.clone(),
                            description: t.description.clone(),
                            icon: t.icon.clone(),
                            earned_at: now_ts,
                            rarity: t.rarity,
                        },
                    );
                    proof {
                        assert(new_badges@.last() == badge_of(self.badges@[i as int], now_ts));
                    }
                }
            }
            proof {
                assert(self.badges@.take(i + 1).drop_last() =~= self.badges@.take(i as int));
                assert(self.badges@.take(i + 1).last() == self.badges@[i as int]);
            }
            i = i + 1;
        }
        proof {
            assert(self.badges@.take(self.badges@.len() as int) =~= self.badges@);
        }
        new_badges
    }

    /// Evaluates every achievement template against the given profile
    /// snapshot, skipping names the profile already owns. Returns the new
    /// achievements to merge, without touching the profile.
    pub fn check_achievements(
        &self,
        profile: &StudentProfile,
        _session: &StudySessionRequest,
        now_ts: i64,
    ) -> (r: Vec<Achievement>)
        requires
            eval_profile_ok(*profile),
        ensures
            r@ == achievements_awarded(
                self.achievements@,
                profile.achievements@,
                total_study_hours(profile.study_sessions@),
                profile.current_streak as int,
                profile.total_points as int,
                profile.study_sessions@.len() as int,
                now_ts,
            ),
    {
        let mut new_achievements: Vec<Achievement> = Vec::new();
        let total_hours = sum_session_hours(&profile.study_sessions);
        let total_sessions = profile.study_sessions.len();
        let mut i: usize = 0;
        while i < self.achievements.len()
            invariant
                i <= self.achievements@.len(),
                eval_profile_ok(*profile),
                total_hours == total_study_hours(profile.study_sessions@),
                total_sessions == profile.study_sessions@.len(),
                new_achievements@ == achievements_awarded(
                    self.achievements@.take(i as int),
                    profile.achievements@,
                    total_study_hours(profile.study_sessions@),
                    profile.current_streak as int,
                    profile.total_points as int,
                    profile.study_sessions@.len() as int,
                    now_ts,
                ),
            decreases self.achievements@.len() - i,
        {
            let t = &self.achievements[i];
            if !has_achievement_named(&profile.achievements, &t.name) {
                let met = match &t.condition {
                    AchievementCondition::TotalStudyHours(target) => total_hours >= *target,
                    AchievementCondition::StudyStreak(target) => profile.current_streak >= *target,
                    AchievementCondition::PerfectAttendance(target) => profile.current_streak
                        >= *target,
                    AchievementCondition::PointsEarned(target) => profile.total_points >= *target,
                    AchievementCondition::SessionsCompleted(target) => {
                        if *target <= 0 {
                            true
                        } else if *target > 2_000_000 {
                            false
                        } else {
                            total_sessions >= *target as usize
                        }
                    },
                    AchievementCondition::SubjectMastery(_, _) => false,
                };
                if met {
                    new_achievements.push(
                        Achievement {
                            name: t.name.clone(),
                            description: t.description.clone(),
                            points: t.points,
                            progress: 100,
                            completed: true,
                            completed_at: Some(now_ts),
                        },
                    );
                    proof {
                        assert(new_achievements@.last() == achievement_of(
                            self.achievements@[i as int],
                            now_ts,
                        ));
                    }
                }
            }
            proof {
                assert(self.achievements@.take(i + 1).drop_last() =~= self.achievements@.take(
                    i as int,
                ));
                assert(self.achievements@.take(i + 1).last() == self.achievements@[i as int]);
            }
            i = i + 1;
        }
        proof {
            assert(self.achievements@.take(self.achievements@.len() as int)
                =~= self.achievements@);
        }
        new_achievements
    }

    /// Records one study session as a pure transition: computes the session's
    /// points, advances streak, level and history, evaluates every rule
    /// template against the advanced snapshot, and returns the next profile
    /// value together with what was newly awarded. The caller persists the
    /// returned profile; nothing is mutated in place.
    pub fn record_session(
        &self,
        profile: StudentProfile,
        session: &StudySessionRequest,
        today: i64,
        hour_of_day: i64,
        now_ts: i64,
        leaderboard_position: usize,
    ) -> (r: GamificationResponse)
        requires
            profile_bounded(profile),
            session_request_bounded(*session),
            profile.study_sessions@.len() < 1_000_000,
            -1_000_000_000_000 <= today <= 1_000_000_000_000,
        ensures
            r.points_earned == session_points(*session),
            r.leaderboard_position == leaderboard_position,
            r.profile.student_name@ == profile.student_name@,
            r.profile.total_points == profile.total_points + session_points(*session),
            r.profile.level >= 1,
            profile.total_points + session_points(*session) >= 0 ==> (r.profile.level - 1) * (
            r.profile.level - 1) <= (profile.total_points + session_points(*session)) / 100
                < r.profile.level * r.profile.level,
            profile.total_points + session_points(*session) < 0 ==> r.profile.level == 1,
            r.level_up == (r.profile.level > profile.level),
            r.profile.current_streak == next_streak(
                profile.current_streak as int,
                profile.last_activity as int,
                today as int,
            ),
            r.profile.longest_streak == crate::plan::max_of(
                profile.longest_streak as int,
                r.profile.current_streak as int,
            ),
            r.profile.last_activity == today,
            r.profile.study_sessions@.len() == profile.study_sessions@.len() + 1,
            forall|i: int|
                0 <= i < profile.study_sessions@.len() ==> r.profile.study_sessions@[i]
                    == profile.study_sessions@[i],
            r.profile.study_sessions@.last().date == today,
            r.profile.study_sessions@.last().duration_hours == session.duration_hours,
            r.profile.study_sessions@.last().focus_score == session.focus_score,
            r.profile.study_sessions@.last().points_earned == session_points(*session),
            r.profile.study_sessions@.last().subjects@ == session.subjects@,
            r.new_badges@ == badges_awarded(
                self.badges@,
                profile.badges@,
                profile.study_sessions@.len() + 1 as int,
                profile.total_points + session_points(*session),
                next_streak(
                    profile.current_streak as int,
                    profile.last_activity as int,
                    today as int,
                ),
                *session,
                hour_of_day as int,
                now_ts,
            ),
            r.new_achievements@ == achievements_awarded(
                self.achievements@,
                profile.achievements@,
                total_study_hours(profile.study_sessions@) + session.duration_hours,
                next_streak(
                    profile.current_streak as int,
                    profile.last_activity as int,
                    today as int,
                ),
                profile.total_points + session_points(*session),
                profile.study_sessions@.len() + 1 as int,
                now_ts,
            ),
            r.profile.badges@ == profile.badges@ + r.new_badges@,
            r.profile.achievements@ == profile.achievements@ + r.new_achievements@,
    {
        let ghost old_profile = profile;
        let points_earned = self.calculate_points(session);
        let new_total = profile.total_points + points_earned;
        let new_level = self.calculate_level(new_total);
        let level_up = new_level > profile.level;
        let new_streak = self.update_streak(&profile, today);
        let longest = if profile.longest_streak >= new_streak {
            profile.longest_streak
        } else {
            new_streak
        };

        let mut next = profile;
        next.total_points = new_total;
        next.level = new_level;
        next.current_streak = new_streak;
        next.longest_streak = longest;
        next.last_activity = today;
        next.study_sessions.push(
            StudySession {
                date: today,
                duration_hours: session.duration_hours,
                subjects: clone_strings(&session.subjects),
                points_earned,
                focus_score: session.focus_score,
            },
        );
        proof {
            assert(next.study_sessions@.drop_last() =~= old_profile.study_sessions@);
        }

        let new_badges = self.check_badges(&next, session, hour_of_day, now_ts);
        let new_achievements = self.check_achievements(&next, session, now_ts);

        append_badges(&mut next.badges, &new_badges);
        append_achievements(&mut next.achievements, &new_achievements);

        GamificationResponse {
            profile: next,
            points_earned,
            level_up,
            new_badges,
            new_achievements,
            leaderboard_position,
        }
    }

    /// Advances the streak state machine for a session recorded `today`.
    pub fn update_streak(&self, profile: &StudentProfile, today: i64) -> (r: i64)
        requires
            profile_bounded(*profile),
            -1_000_000_000_000 <= today <= 1_000_000_000_000,
        ensures
            r == next_streak(profile.current_streak as int, profile.last_activity as int, today as int),
            1 <= r || r == profile.current_streak,
    {
        if today == profile.last_activity {
            profile.current_streak
        } else if today == profile.last_activity + 1 {
            profile.current_streak + 1
        } else {
            1
        }
    }
}

/// Pushes a copy of every badge in `src` onto `dst`, in order.
fn append_badges(dst: &mut Vec<Badge>, src: &Vec<Badge>)
    ensures
        final(dst)@ == old(dst)@ + src@,
{
    let mut i: usize = 0;
    while i < src.len()
        invariant
            i <= src@.len(),
            dst@ == old(dst)@ + src@.take(i as int),
        decreases src@.len() - i,
    {
        let b = &src[i];
        dst.push(
            Badge {
                name: b.name.clone(),
                description: b.description.clone(),
                icon: b.icon.clone(),
                earned_at: b.earned_at,
                rarity: b.rarity,
            },
        );
        proof {
            assert(dst@.last() == src@[i as int]);
            assert(dst@ =~= old(dst)@ + src@.take(i + 1));
        }
        i = i + 1;
    }
    proof {
        assert(src@.take(src@.len() as int) =~= src@);
    }
}

/// Pushes a copy of every achievement in `src` onto `dst`, in order.
fn append_achievements(dst: &mut Vec<Achievement>, src: &Vec<Achievement>)
    ensures
        final(dst)@ == old(dst)@ + src@,
{
    let mut i: usize = 0;
    while i < src.len()
        invariant
            i <= src@.len(),
            dst@ == old(dst)@ + src@.take(i as int),
        decreases src@.len() - i,
    {
        let a = &src[i];
        dst.push(
            Achievement {
                name: a.name.clone(),
                description: a.description.clone(),
                points: a.points,
                progress: a.progress,
                completed: a.completed,
                completed_at: a.completed_at,
            },
        );
        proof {
            assert(dst@.last() == src@[i as int]);
            assert(dst@ =~= old(dst)@ + src@.take(i + 1));
        }
        i = i + 1;
    }
    proof {
        assert(src@.take(src@.len() as int) =~= src@);
    }
}

/// Copies a list of subject names.
fn clone_strings(v: &Vec<String>) -> (r: Vec<String>)
    ensures
        r@ == v@,
{
    let mut r: Vec<String> = Vec::new();
    let mut i: usize = 0;
    while i < v.len()
        invariant
            i <= v@.len(),
            r@ == v@.take(i as int),
        decreases v@.len() - i,
    {
        r.push(v[i].clone());
        proof {
            assert(r@ =~= v@.take(i + 1));
        }
        i = i + 1;
    }
    proof {
        assert(v@.take(v@.len() as int) =~= v@);
    }
    r
}

/// A badge with the given name is awarded exactly when some template of
/// that name is awardable.
proof fn lemma_awarded_name_iff(
    templates: Seq<BadgeTemplate>,
    owned: Seq<Badge>,
    sessions_count: int,
    total_points: int,
    streak: int,
    s: StudySessionRequest,
    hour: int,
    now_ts: i64,
    name: Seq<char>,
)
    ensures
        badge_name_owned(
            badges_awarded(templates, owned, sessions_count, total_points, streak, s, hour, now_ts),
            name,
        ) <==> exists|i: int|
            0 <= i < templates.len() && (#[trigger] templates[i]).name@ == name
                && badge_awardable(templates[i], owned, sessions_count, total_points, streak, s, hour),
    decreases templates.len(),
{
    if templates.len() > 0 {
        let prefix = templates.drop_last();
        let last = templates.last();
        lemma_awarded_name_iff(
            prefix,
            owned,
            sessions_count,
            total_points,
            streak,
            s,
            hour,
            now_ts,
            name,
        );
        let a = badges_awarded(templates, owned, sessions_count, total_points, streak, s, hour, now_ts);
        let ap = badges_awarded(prefix, owned, sessions_count, total_points, streak, s, hour, now_ts);

        if badge_name_owned(a, name) {
            let i = choose|i: int| 0 <= i < a.len() && a[i].name@ == name;
            if i < ap.len() {
                assert(a[i] == ap[i]);
                assert(badge_name_owned(ap, name));
                let j = choose|j: int|
                    0 <= j < prefix.len() && (#[trigger] prefix[j]).name@ == name
                        && badge_awardable(prefix[j], owned, sessions_count, total_points, streak, s, hour);
                assert(templates[j] == prefix[j]);
            } else {
                assert(badge_awardable(last, owned, sessions_count, total_points, streak, s, hour));
                assert(a[i] == badge_of(last, now_ts));
                assert(templates[templates.len() - 1] == last);
            }
        }
        if exists|i: int|
            0 <= i < templates.len() && (#[trigger] templates[i]).name@ == name && badge_awardable(
                templates[i],
                owned,
                sessions_count,
                total_points,
                streak,
                s,
                hour,
            ) {
            let i = choose|i: int|
                0 <= i < templates.len() && (#[trigger] templates[i]).name@ == name
                    && badge_awardable(templates[i], owned, sessions_count, total_points, streak, s, hour);
            if i < templates.len() - 1 {
                assert(prefix[i] == templates[i]);
                assert(badge_name_owned(ap, name));
                let k = choose|k: int| 0 <= k < ap.len() && ap[k].name@ == name;
                assert(a[k] == ap[k]);
                assert(badge_name_owned(a, name));
            } else {
                assert(templates[i] == last);
                assert(a.last() == badge_of(last, now_ts));
                assert(a[a.len() - 1].name@ == name);
                assert(badge_name_owned(a, name));
            }
        }
    }
}

/// Law: among templates with distinct names, the badge of a template whose
/// rule is the first-session rule is awarded if and only if the evaluated
/// session count is exactly one and the profile does not already own that
/// badge. With the snapshot `record_session` evaluates, the count is one
/// exactly when the recorded session is the profile's first.
pub proof fn lemma_first_session_badge_iff(
    templates: Seq<BadgeTemplate>,
    owned: Seq<Badge>,
    sessions_count: int,
    total_points: int,
    streak: int,
    s: StudySessionRequest,
    hour: int,
    now_ts: i64,
    k: int,
)
    requires
        badge_names_unique(templates),
        0 <= k < templates.len(),
        templates[k].condition == BadgeCondition::FirstStudySession,
    ensures
        badge_name_owned(
            badges_awarded(templates, owned, sessions_count, total_points, streak, s, hour, now_ts),
            templates[k].name@,
        ) <==> (sessions_count == 1 && !badge_name_owned(owned, templates[k].name@)),
{
    let name = templates[k].name@;
    lemma_awarded_name_iff(templates, owned, sessions_count, total_points, streak, s, hour, now_ts, name);
    if badge_name_owned(
        badges_awarded(templates, owned, sessions_count, total_points, streak, s, hour, now_ts),
        name,
    ) {
        let i = choose|i: int|
            0 <= i < templates.len() && (#[trigger] templates[i]).name@ == name && badge_awardable(
                templates[i],
                owned,
                sessions_count,
                total_points,
                streak,
                s,
                hour,
            );
        assert(i == k);
    }
    if sessions_count == 1 && !badge_name_owned(owned, name) {
        assert(badge_awardable(templates[k], owned, sessions_count, total_points, streak, s, hour));
    }
}

/// Law: evaluation is idempotent for badges. A badge name the profile
/// already owns is never among the newly awarded badges, whatever the
/// templates and the session.
pub proof fn lemma_badge_never_reawarded(
    templates: Seq<BadgeTemplate>,
    owned: Seq<Badge>,
    sessions_count: int,
    total_points: int,
    streak: int,
    s: StudySessionRequest,
    hour: int,
    now_ts: i64,
    name: Seq<char>,
)
    requires
        badge_name_owned(owned, name),
    ensures
        !badge_name_owned(
            badges_awarded(templates, owned, sessions_count, total_points, streak, s, hour, now_ts),
            name,
        ),
{
    lemma_awarded_name_iff(templates, owned, sessions_count, total_points, streak, s, hour, now_ts, name);
}

/// Law: evaluation is idempotent for achievements. An achievement name the
/// profile already owns is never among the newly awarded achievements.
pub proof fn lemma_achievement_never_reawarded(
    templates: Seq<AchievementTemplate>,
    owned: Seq<Achievement>,
    total_hours: int,
    streak: int,
    total_points: int,
    sessions_count: int,
    now_ts: i64,
    name: Seq<char>,
)
    requires
        achievement_name_owned(owned, name),
    ensures
        !achievement_name_owned(
            achievements_awarded(
                templates,
                owned,
                total_hours,
                streak,
                total_points,
                sessions_count,
                now_ts,
            ),
            name,
        ),
    decreases templates.len(),
{
    if templates.len() > 0 {
        let prefix = templates.drop_last();
        let last = templates.last();
        lemma_achievement_never_reawarded(
            prefix,
            owned,
            total_hours,
            streak,
            total_points,
            sessions_count,
            now_ts,
            name,
        );
        let a = achievements_awarded(
            templates,
            owned,
            total_hours,
            streak,
            total_points,
            sessions_count,
            now_ts,
        );
        let ap = achievements_awarded(
            prefix,
            owned,
            total_hours,
            streak,
            total_points,
            sessions_count,
            now_ts,
        );
        if achievement_name_owned(a, name) {
            let i = choose|i: int| 0 <= i < a.len() && a[i].name@ == name;
            if i < ap.len() {
                assert(a[i] == ap[i]);
                assert(achievement_name_owned(ap, name));
            } else {
                assert(a[i] == achievement_of(last, now_ts));
                assert(!achievement_name_owned(owned, last.name@));
            }
        }
    }
}

/// A small demonstration leaderboard, ranked one to five with strictly
/// descending point totals.
pub fn get_mock_leaderboard() -> (r: Vec<LeaderboardEntry>)
    ensures
        r@.len() == 5,
        forall|i: int| 0 <= i < 5 ==> (#[trigger] r@[i]).rank == i + 1,
        forall|i: int, j: int|
            0 <= i < j < 5 ==> (#[trigger] r@[i]).total_points > (#[trigger] r@[j]).total_points,
        r@[0].student_name@ == "Denis Lemayian"@ && r@[0].total_points == 1250 && r@[0].level == 12
            && r@[0].badge_count == 8,
        r@[1].student_name@ == "Saitoti Smith"@ && r@[1].total_points == 980 && r@[1].level == 10
            && r@[1].badge_count == 6,
        r@[2].student_name@ == "Kukutia Johnson"@ && r@[2].total_points == 750 && r@[2].level == 9
            && r@[2].badge_count == 4,
        r@[3].student_name@ == "Kirionki Williams"@ && r@[3].total_points == 620 && r@[3].level
            == 8 && r@[3].badge_count == 3,
        r@[4].student_name@ == "David Lemoita"@ && r@[4].total_points == 540 && r@[4].level == 7
            && r@[4].badge_count == 5,
{
    let mut board: Vec<LeaderboardEntry> = Vec::new();
    board.push(
        LeaderboardEntry {
            rank: 1,
            student_name: "Denis Lemayian".to_owned(),
            total_points: 1250,
            level: 12,
            badge_count: 8,
        },
    );
    board.push(
        LeaderboardEntry {
            rank: 2,
            student_name: "Saitoti Smith".to_owned(),
            total_points: 980,
            level: 10,
            badge_count: 6,
        },
    );
    board.push(
        LeaderboardEntry {
            rank: 3,
            student_name: "Kukutia Johnson".to_owned(),
            total_points: 750,
            level: 9,
            badge_count: 4,
        },
    );
    board.push(
        LeaderboardEntry {
            rank: 4,
            student_name: "Kirionki Williams".to_owned(),
            total_points: 620,
            level: 8,
            badge_count: 3,
        },
    );
    board.push(
        LeaderboardEntry {
            rank: 5,
            student_name: "David Lemoita".to_owned(),
            total_points: 540,
            level: 7,
            badge_count: 5,
        },
    );
    board
}

/// A demonstration profile for the given student: 750 points at level nine,
/// a five-day streak, two badges, two achievements and one recorded
/// session, last active on the given day.
pub fn get_mock_profile(student_name: &str, today: i64, now_ts: i64) -> (r: StudentProfile)
    requires
        -1_000_000_000_000 <= today <= 1_000_000_000_000,
    ensures
        r.student_name@ == student_name@,
        r.total_points == 750,
        r.level == 9,
        r.current_streak == 5,
        r.longest_streak == 12,
        r.badges@.len() == 2,
        r.achievements@.len() == 2,
        r.study_sessions@.len() == 1,
        r.last_activity == today,
        profile_bounded(r),
{
    let mut badges: Vec<Badge> = Vec::new();
    badges.push(
        Badge {
            name: "First Session".to_owned(),
            description: "Completed your first study session".to_owned(),
            icon: "target".to_owned(),
            earned_at: now_ts,
            rarity: Rarity::Common,
        },
    );
    badges.push(
        Badge {
            name: "Weekly Champion".to_owned(),
            description: "Top performer for the week".to_owned(),
            icon: "trophy".to_owned(),
            earned_at: now_ts,
            rarity: Rarity::Rare,
        },
    );

    let mut achievements: Vec<Achievement> = Vec::new();
    achievements.push(
        Achievement {
            name: "First Steps".to_owned(),
            description: "Complete your first study session".to_owned(),
            points: 50,
            progress: 100,
            completed: true,
            completed_at: Some(now_ts),
        },
    );
    achievements.push(
        Achievement {
            name: "Dedicated Learner".to_owned(),
            description: "Reach 50 total study hours".to_owned(),
            points: 200,
            progress: 80,
            completed: false,
            completed_at: None,
        },
    );

    let mut subjects: Vec<String> = Vec::new();
    subjects.push("Mathematics".to_owned());
    subjects.push("Programming".to_owned());
    let mut study_sessions: Vec<StudySession> = Vec::new();
    study_sessions.push(
        StudySession {
            date: today,
            duration_hours: 25,
            subjects,
            points_earned: 45,
            focus_score: 80,
        },
    );

    StudentProfile {
        student_name: student_name.to_owned(),
        total_points: 750,
        level: 9,
        current_streak: 5,
        longest_streak: 12,
        badges,
        achievements,
        study_sessions,
        last_activity: today,
    }
}

/// Levels never go down as points grow: the closing fact behind the level
/// formula. Stated over the bracketing that `calculate_level` ensures.
pub proof fn lemma_level_monotonic(p1: int, p2: int, l1: int, l2: int)
    requires
        0 <= p1 <= p2,
        l1 >= 1,
        l2 >= 1,
        (l1 - 1) * (l1 - 1) <= p1 / 100 < l1 * l1,
        (l2 - 1) * (l2 - 1) <= p2 / 100 < l2 * l2,
    ensures
        l1 <= l2,
{
    vstd::arithmetic::div_mod::lemma_div_is_ordered(p1, p2, 100);
    assert(l1 <= l2) by (nonlinear_arith)
        requires
            l1 >= 1 && l2 >= 1 && (l1 - 1) * (l1 - 1) <= p1 / 100 && p1 / 100 <= p2 / 100 && p2
                / 100 < l2 * l2,
    ;
}

} // verus!
