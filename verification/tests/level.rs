use journey::game::enemy::EnemyType;
use journey::game::level::{
    collision_boxes, collision_stats, level_warnings, parse_level, EnemySpawn, LevelWarning,
    PlatformType, Tile,
};
use journey::game::level_editor::paint_tile;
use journey::game::tile_boxes::{merge_tiles, TileGroup, TileRect};

const TILE: usize = 16;

fn size_px(b: &TileRect) -> (usize, usize) {
    ((b.col1 - b.col0) * TILE, (b.row1 - b.row0) * TILE)
}

#[test]
fn level_merges_horizontal_floor_collision() {
    let layout = parse_level("....\n====");
    let boxes = collision_boxes(&layout.tiles);
    assert_eq!(layout.tiles.len(), 4);
    assert_eq!(boxes.solid.len(), 1);
    assert_eq!(size_px(&boxes.solid[0]), (64, 16));
}

#[test]
fn level_merges_vertical_wall_collision() {
    let layout = parse_level("#...\n#...\n#...");
    let boxes = collision_boxes(&layout.tiles);
    assert_eq!(layout.tiles.len(), 3);
    assert_eq!(boxes.wall.len(), 1);
    assert_eq!(size_px(&boxes.wall[0]), (16, 48));
}

#[test]
fn level_keeps_one_way_separate_from_solids() {
    let layout = parse_level("____\n====");
    let boxes = collision_boxes(&layout.tiles);
    assert_eq!(boxes.solid.len(), 1);
    assert_eq!(boxes.one_way.len(), 1);
    assert_eq!(boxes.all.len(), 2);
}

#[test]
fn level_collision_stats_report_raw_and_merged_counts() {
    let layout = parse_level("##..\n____\n====");
    let boxes = collision_boxes(&layout.tiles);
    let stats = collision_stats(&layout.tiles, &boxes);
    assert_eq!(stats.raw_platforms, 10);
    assert_eq!(stats.raw_solid, 6);
    assert_eq!(stats.raw_one_way, 4);
    assert_eq!(stats.raw_wall, 2);
    assert_eq!(stats.merged_solid, 2);
    assert_eq!(stats.merged_one_way, 1);
    assert_eq!(stats.merged_wall, 1);
    assert_eq!(stats.merged_all, 3);
}

#[test]
fn parse_places_markers_by_row_and_character_column() {
    let layout = parse_level("@.*\r\nE#S\nRäO=\n@");
    assert_eq!(layout.rows, 4);
    // With several spawn markers only the first is used.
    assert_eq!(layout.player_spawn, Some((0, 0)));
    assert_eq!(layout.grapple_nodes, vec![(0, 2)]);
    // A multi-byte character takes one column.
    assert_eq!(layout.exit, Some((2, 2)));
    assert_eq!(
        layout.tiles,
        vec![
            Tile { row: 1, col: 1, kind: PlatformType::Wall },
            Tile { row: 2, col: 3, kind: PlatformType::Floor },
        ]
    );
    assert_eq!(
        layout.enemies,
        vec![
            EnemySpawn { row: 1, col: 0, enemy_type: EnemyType::Grunt },
            EnemySpawn { row: 1, col: 2, enemy_type: EnemyType::Sniper },
            EnemySpawn { row: 2, col: 0, enemy_type: EnemyType::Ronin },
        ]
    );
}

#[test]
fn parse_counts_lines_like_str_lines() {
    assert_eq!(parse_level("").rows, 0);
    assert_eq!(parse_level("\n").rows, 1);
    assert_eq!(parse_level("==\n").rows, 1);
    assert_eq!(parse_level("==\n==").rows, 2);
    assert!(parse_level("...").player_spawn.is_none());
    assert!(parse_level("...").exit.is_none());
}

#[test]
fn merge_stacks_only_identical_runs() {
    // Rows 0 and 1 share the run of columns 0..2; row 2 is wider and stays apart.
    let layout = parse_level("==\n==\n===\n.=");
    let solid = merge_tiles(&layout.tiles, TileGroup::Solid);
    assert_eq!(
        solid,
        vec![
            TileRect { col0: 0, col1: 2, row0: 0, row1: 2 },
            TileRect { col0: 0, col1: 3, row0: 2, row1: 3 },
            TileRect { col0: 1, col1: 2, row0: 3, row1: 4 },
        ]
    );
    // One-way platforms never stack.
    let thin = parse_level("__\n__");
    let one_way = merge_tiles(&thin.tiles, TileGroup::OneWay);
    assert_eq!(
        one_way,
        vec![TileRect { col0: 0, col1: 2, row0: 0, row1: 1 }, TileRect { col0: 0, col1: 2, row0: 1, row1: 2 }]
    );
}

#[test]
fn merge_splits_runs_at_gaps_and_mixes_floor_with_wall() {
    let layout = parse_level("=#.=");
    let solid = merge_tiles(&layout.tiles, TileGroup::Solid);
    assert_eq!(
        solid,
        vec![TileRect { col0: 0, col1: 2, row0: 0, row1: 1 }, TileRect { col0: 3, col1: 4, row0: 0, row1: 1 }]
    );
    let wall = merge_tiles(&layout.tiles, TileGroup::Wall);
    assert_eq!(wall, vec![TileRect { col0: 1, col1: 2, row0: 0, row1: 1 }]);
}

#[test]
fn editor_warns_about_missing_pieces() {
    assert_eq!(
        level_warnings("...."),
        vec![LevelWarning::NoPlayerSpawn, LevelWarning::NoExit, LevelWarning::NoSolidTiles]
    );
    assert!(level_warnings("@..O\n####").is_empty());
    assert_eq!(
        level_warnings("@@.@\n=__="),
        vec![LevelWarning::MultiplePlayerSpawns(3), LevelWarning::NoExit]
    );
}

#[test]
fn merged_boxes_cover_each_tile_exactly_once() {
    let text = "#..==\n#_.==\n##===\n..__.";
    let layout = parse_level(text);
    for group in [TileGroup::Solid, TileGroup::OneWay, TileGroup::Wall] {
        let boxes = merge_tiles(&layout.tiles, group);
        for row in 0..4usize {
            for col in 0..5usize {
                let tile = layout.tiles.iter().find(|t| t.row == row && t.col == col);
                let wanted = match (tile, group) {
                    (Some(t), TileGroup::Solid) => t.kind != PlatformType::OneWay,
                    (Some(t), TileGroup::OneWay) => t.kind == PlatformType::OneWay,
                    (Some(t), TileGroup::Wall) => t.kind == PlatformType::Wall,
                    (None, _) => false,
                };
                let holders = boxes
                    .iter()
                    .filter(|b| b.row0 <= row && row < b.row1 && b.col0 <= col && col < b.col1)
                    .count();
                assert_eq!(holders, if wanted { 1 } else { 0 }, "cell ({row}, {col})");
            }
        }
    }
}

fn grid(rows: &[&str]) -> Vec<Vec<char>> {
    rows.iter().map(|r| r.chars().collect()).collect()
}

#[test]
fn painting_writes_the_selected_tile_or_erases() {
    let mut lines = grid(&["....", "ä...", "===="]);
    assert!(paint_tile(&mut lines, 0, 2, false, '#'));
    assert_eq!(lines, grid(&["..#.", "ä...", "===="]));
    // Columns count characters, not bytes.
    assert!(paint_tile(&mut lines, 1, 1, false, '@'));
    assert_eq!(lines, grid(&["..#.", "ä@..", "===="]));
    // The eraser writes '.'.
    assert!(paint_tile(&mut lines, 2, 0, true, '#'));
    assert_eq!(lines, grid(&["..#.", "ä@..", ".==="]));
}

#[test]
fn painting_outside_or_over_the_same_tile_changes_nothing() {
    let mut lines = grid(&["..#.", "=="]);
    let before = lines.clone();
    assert!(!paint_tile(&mut lines, 0, 2, false, '#'));
    assert!(!paint_tile(&mut lines, 0, 0, true, '#'));
    assert!(!paint_tile(&mut lines, -1, 0, false, '#'));
    assert!(!paint_tile(&mut lines, 0, -1, false, '#'));
    assert!(!paint_tile(&mut lines, 2, 0, false, '#'));
    assert!(!paint_tile(&mut lines, 1, 2, false, '#'));
    assert_eq!(lines, before);
}
