use student_success::gamification::{
    get_mock_leaderboard, get_mock_profile, GamificationEngine, StudentProfile,
    StudySessionRequest,
};

fn fresh_profile(name: &str, last_activity: i64) -> StudentProfile {
    StudentProfile {
        student_name: name.to_string(),
        total_points: 0,
        level: 1,
        current_streak: 0,
        longest_streak: 0,
        badges: Vec::new(),
        achievements: Vec::new(),
        study_sessions: Vec::new(),
        last_activity,
    }
}

fn session(duration: i64, subjects: usize, focus: i64, attended: bool) -> StudySessionRequest {
    StudySessionRequest {
        student_name: "gamer".to_string(),
        duration_hours: duration,
        subjects: (0..subjects).map(|i| format!("subject{}", i)).collect(),
        focus_score: focus,
        attendance_today: attended,
    }
}

#[test]
fn session_points_formula() {
    let engine = GamificationEngine::new();
    // 2.5 hours, 0.8 focus, two subjects, attended: 25 + 16 + 10 + 25 + 15.
    assert_eq!(engine.calculate_points(&session(25, 2, 80, true)), 91);
    // 1.0 hour, no focus, one subject, absent: 10 + 0 + 5.
    assert_eq!(engine.calculate_points(&session(10, 1, 0, false)), 15);
    // Points never go negative.
    assert_eq!(engine.calculate_points(&session(-100, 0, 0, false)), 0);
}

#[test]
fn level_formula() {
    let engine = GamificationEngine::new();
    assert_eq!(engine.calculate_level(0), 1);
    assert_eq!(engine.calculate_level(99), 1);
    assert_eq!(engine.calculate_level(100), 2);
    assert_eq!(engine.calculate_level(399), 2);
    assert_eq!(engine.calculate_level(400), 3);
    assert_eq!(engine.calculate_level(750), 3);
    assert_eq!(engine.calculate_level(10000), 11);
    assert_eq!(engine.calculate_level(-5), 1);
}

#[test]
fn streak_transitions() {
    // Yesterday's activity plus today's session extends the streak; a
    // three-day gap resets it to one.
    let engine = GamificationEngine::new();
    let mut profile = fresh_profile("streaker", 100);
    profile.current_streak = 4;
    assert_eq!(engine.update_streak(&profile, 101), 5);
    assert_eq!(engine.update_streak(&profile, 103), 1);
    assert_eq!(engine.update_streak(&profile, 100), 4);
}

#[test]
fn first_session_awards_first_badges() {
    let engine = GamificationEngine::new();
    let profile = fresh_profile("newcomer", 0);
    // Recorded at 9 in the morning, five days after the (empty) history.
    let response = engine.record_session(profile, &session(30, 1, 50, false), 5, 9, 1000, 3);

    // 3.0 hours, 0.5 focus, one subject, over two hours: 30 + 10 + 5 + 15.
    assert_eq!(response.points_earned, 60);
    assert_eq!(response.profile.total_points, 60);
    assert_eq!(response.profile.level, 1);
    assert!(!response.level_up);
    assert_eq!(response.profile.current_streak, 1);
    assert_eq!(response.profile.last_activity, 5);
    assert_eq!(response.profile.study_sessions.len(), 1);
    assert_eq!(response.profile.study_sessions[0].date, 5);
    assert_eq!(response.profile.study_sessions[0].points_earned, 60);
    assert_eq!(response.leaderboard_position, 3);

    // The session count became exactly one, so the first-session badge is
    // awarded; the morning hour also awards the early-bird badge.
    let names: Vec<&str> = response.new_badges.iter().map(|b| b.name.as_str()).collect();
    assert_eq!(names, vec!["First Session", "Early Bird"]);
    assert_eq!(response.profile.badges.len(), 2);

    // The first recorded session completes the first-steps achievement.
    let earned: Vec<&str> = response.new_achievements.iter().map(|a| a.name.as_str()).collect();
    assert_eq!(earned, vec!["First Steps"]);
    assert!(response.new_achievements[0].completed);
    assert_eq!(response.new_achievements[0].completed_at, Some(1000));
}

#[test]
fn first_session_badge_never_reawarded() {
    let engine = GamificationEngine::new();
    // The mock profile already owns the first-session badge and has one
    // session, so recording another never re-awards it.
    let profile = get_mock_profile("veteran", 200, 900);
    let response = engine.record_session(profile, &session(30, 1, 50, false), 201, 9, 1000, 3);
    assert!(response.new_badges.iter().all(|b| b.name != "First Session"));
    // The session count became two, not one, so even a fresh profile that
    // somehow lacked the badge would not earn it.
    assert_eq!(response.profile.study_sessions.len(), 2);
}

#[test]
fn marathon_and_evening_badges() {
    let engine = GamificationEngine::new();
    let mut profile = fresh_profile("marathoner", 10);
    profile.badges.clear();
    // A 5.0-hour session at 20:00 on the next day.
    let response = engine.record_session(profile, &session(50, 1, 0, false), 11, 20, 0, 1);
    let names: Vec<&str> = response.new_badges.iter().map(|b| b.name.as_str()).collect();
    assert!(names.contains(&"Marathon Studier"));
    assert!(names.contains(&"Night Owl"));
    assert!(!names.contains(&"Early Bird"));
}

#[test]
fn streak_extension_through_recording() {
    let engine = GamificationEngine::new();
    let mut profile = fresh_profile("consistent", 100);
    profile.current_streak = 6;
    profile.longest_streak = 6;
    let response = engine.record_session(profile, &session(10, 1, 0, true), 101, 14, 0, 1);
    assert_eq!(response.profile.current_streak, 7);
    assert_eq!(response.profile.longest_streak, 7);

    // A seven-day streak with attendance today is a perfect week.
    let names: Vec<&str> = response.new_badges.iter().map(|b| b.name.as_str()).collect();
    assert!(names.contains(&"Perfect Week"));
}

#[test]
fn achievements_track_totals() {
    let engine = GamificationEngine::new();
    let mut profile = fresh_profile("dedicated", 100);
    // 49 hours recorded so far; this 1.0-hour session reaches 50 hours.
    profile.study_sessions.push(student_success::gamification::StudySession {
        date: 100,
        duration_hours: 490,
        subjects: Vec::new(),
        points_earned: 0,
        focus_score: 0,
    });
    profile.total_points = 950;
    let response = engine.record_session(profile, &session(10, 10, 0, true), 101, 14, 0, 1);
    // Points: 10 + 0 + 50 + 25 = 85, taking the total past 1000.
    assert_eq!(response.points_earned, 85);
    // The session count is past one, total hours reach 50 and the points
    // pass 1000; none of the three is owned yet, so all three are awarded
    // in template order.
    let earned: Vec<&str> = response.new_achievements.iter().map(|a| a.name.as_str()).collect();
    assert_eq!(earned, vec!["First Steps", "Dedicated Learner", "Point Master"]);
}

#[test]
fn level_up_is_reported() {
    let engine = GamificationEngine::new();
    let mut profile = fresh_profile("climber", 100);
    profile.total_points = 95;
    profile.level = 1;
    let response = engine.record_session(profile, &session(10, 0, 0, false), 101, 14, 0, 1);
    // 10 points take the total to 105: level 2.
    assert_eq!(response.profile.total_points, 105);
    assert_eq!(response.profile.level, 2);
    assert!(response.level_up);
}

#[test]
fn mock_leaderboard_is_ranked() {
    let board = get_mock_leaderboard();
    assert_eq!(board.len(), 5);
    let names: Vec<&str> = board.iter().map(|e| e.student_name.as_str()).collect();
    assert_eq!(
        names,
        vec![
            "Denis Lemayian",
            "Saitoti Smith",
            "Kukutia Johnson",
            "Kirionki Williams",
            "David Lemoita",
        ]
    );
    let points: Vec<i64> = board.iter().map(|e| e.total_points).collect();
    assert_eq!(points, vec![1250, 980, 750, 620, 540]);
    let levels: Vec<i64> = board.iter().map(|e| e.level).collect();
    assert_eq!(levels, vec![12, 10, 9, 8, 7]);
    let badge_counts: Vec<usize> = board.iter().map(|e| e.badge_count).collect();
    assert_eq!(badge_counts, vec![8, 6, 4, 3, 5]);
    for (i, entry) in board.iter().enumerate() {
        assert_eq!(entry.rank, i + 1);
    }
    for pair in board.windows(2) {
        assert!(pair[0].total_points > pair[1].total_points);
    }
}

#[test]
fn mock_profile_snapshot() {
    let profile = get_mock_profile("somebody", 42, 7);
    assert_eq!(profile.student_name, "somebody");
    assert_eq!(profile.total_points, 750);
    assert_eq!(profile.level, 9);
    assert_eq!(profile.current_streak, 5);
    assert_eq!(profile.longest_streak, 12);
    assert_eq!(profile.badges.len(), 2);
    assert_eq!(profile.achievements.len(), 2);
    assert_eq!(profile.study_sessions.len(), 1);
    assert_eq!(profile.last_activity, 42);
}
