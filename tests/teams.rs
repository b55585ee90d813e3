use voice_juggler::render::render_teams;
use voice_juggler::teams::{partition, partition_shuffled, teams_message, TeamError};

fn names(list: &[&str]) -> Vec<String> {
    list.iter().map(|s| s.to_string()).collect()
}

fn sorted_flat(teams: &[Vec<String>]) -> Vec<String> {
    let mut all: Vec<String> = teams.iter().flatten().cloned().collect();
    all.sort();
    all
}

#[test]
fn partition_five_into_two() {
    let members = names(&["A", "B", "C", "D", "E"]);
    let teams = partition(members.clone(), 2).unwrap();
    assert_eq!(teams.len(), 2);
    assert_eq!(teams[0].len(), 2);
    assert_eq!(teams[1].len(), 3);
    assert_eq!(sorted_flat(&teams), members);
}

#[test]
fn partition_sizes_follow_formula() {
    let members: Vec<String> = (0..23).map(|i| format!("m{i:02}")).collect();
    for k in 1..=30usize {
        let teams = partition(members.clone(), k).unwrap();
        assert_eq!(teams.len(), k);
        for t in &teams[..k - 1] {
            assert_eq!(t.len(), 23 / k);
        }
        assert_eq!(teams[k - 1].len(), 23 / k + 23 % k);
        assert_eq!(sorted_flat(&teams), members);
    }
}

#[test]
fn partition_keeps_members_with_equal_names() {
    let members = names(&["x", "x", "y", "x"]);
    let teams = partition(members.clone(), 3).unwrap();
    let mut expected = members.clone();
    expected.sort();
    assert_eq!(sorted_flat(&teams), expected);
}

#[test]
fn partition_empty_into_one() {
    let teams = partition(Vec::new(), 1).unwrap();
    assert_eq!(teams.len(), 1);
    assert!(teams[0].is_empty());
}

#[test]
fn partition_zero_teams_refused() {
    assert_eq!(partition(Vec::new(), 0), Err(TeamError::InvalidTeamCount));
    assert_eq!(partition(names(&["A", "B"]), 0), Err(TeamError::InvalidTeamCount));
}

#[test]
fn partition_more_teams_than_members() {
    let members = names(&["A", "B", "C"]);
    let teams = partition(members.clone(), 5).unwrap();
    assert_eq!(teams.len(), 5);
    for t in &teams[..4] {
        assert!(t.is_empty());
    }
    assert_eq!(teams[4].len(), 3);
    assert_eq!(sorted_flat(&teams), members);
}

#[test]
fn shuffled_order_cut_into_chunks() {
    let order = names(&["A", "B", "C", "D", "E"]);
    let teams = partition_shuffled(&order, 2).unwrap();
    assert_eq!(teams, vec![names(&["A", "B"]), names(&["C", "D", "E"])]);
    let teams = partition_shuffled(&order, 3).unwrap();
    assert_eq!(teams, vec![names(&["A"]), names(&["B"]), names(&["C", "D", "E"])]);
    assert_eq!(partition_shuffled(&order, 0), Err(TeamError::InvalidTeamCount));
}

#[test]
fn render_numbers_teams_from_one() {
    let teams = vec![names(&["A", "B"]), names(&["C", "D", "E"])];
    assert_eq!(render_teams(&teams), "Team 1: A, B\nTeam 2: C, D, E");
}

#[test]
fn render_empty_team_and_large_numbers() {
    let mut teams: Vec<Vec<String>> = vec![Vec::new(); 12];
    teams[11] = names(&["Z"]);
    let text = render_teams(&teams);
    let lines: Vec<&str> = text.split('\n').collect();
    assert_eq!(lines.len(), 12);
    assert_eq!(lines[0], "Team 1: ");
    assert_eq!(lines[9], "Team 10: ");
    assert_eq!(lines[11], "Team 12: Z");
    assert_eq!(render_teams(&Vec::new()), "");
}

#[test]
fn message_for_single_team() {
    let text = teams_message(names(&["<@1>"]), 1).unwrap();
    assert_eq!(text, "Team 1: <@1>");
    assert_eq!(teams_message(Vec::new(), 1).unwrap(), "Team 1: ");
    assert_eq!(teams_message(names(&["<@1>"]), 0), Err(TeamError::InvalidTeamCount));
}

#[test]
fn message_lists_every_member() {
    let members = names(&["<@1>", "<@2>", "<@3>", "<@4>", "<@5>"]);
    let text = teams_message(members.clone(), 2).unwrap();
    let lines: Vec<&str> = text.split('\n').collect();
    assert_eq!(lines.len(), 2);
    assert!(lines[0].starts_with("Team 1: "));
    assert!(lines[1].starts_with("Team 2: "));
    let mut seen: Vec<String> = lines
        .iter()
        .flat_map(|l| l.split_once(": ").unwrap().1.split(", "))
        .map(|s| s.to_string())
        .collect();
    seen.sort();
    assert_eq!(seen, members);
}
