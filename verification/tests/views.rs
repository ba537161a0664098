use bow_solver::dof::Dof;
use bow_solver::views::{
    AffineView, LinearView, Matrix, MatrixView, PositionView, VectorView, VelocityView,
};

fn test_dofs() -> Vec<Dof> {
    vec![Dof::Fixed(1), Dof::Free(2), Dof::Free(4), Dof::Free(6)]
}

#[test]
fn test_views() {
    let dofs = test_dofs();

    {
        let vector: Vec<i64> = vec![1, 2, 3, 4, 5, 6, 7, 8];
        let view = PositionView::new(dofs.clone());
        assert_eq!(view.get(&vector), vec![1, 3, 5, 7]);
    }

    {
        let vector: Vec<i64> = vec![1, 2, 3, 4, 5, 6, 7, 8];
        let view = VelocityView::new(dofs.clone());
        assert_eq!(view.get(&vector), vec![0, 3, 5, 7]);
    }

    {
        let mut vector: Vec<i64> = vec![0; 8];
        let view = VectorView::new(dofs.clone());
        view.add(&mut vector, &vec![1, 2, 3, 4]);
        assert_eq!(vector, vec![0, 0, 2, 0, 3, 0, 4, 0]);
    }

    {
        let mut matrix = Matrix::zeros(8, 8);
        let mut local = Matrix::zeros(4, 4);
        let mut value: i64 = 1;
        for row in 0..4 {
            for col in 0..4 {
                local.set(row, col, value);
                value += 1;
            }
        }
        let view = MatrixView::new(dofs.clone());
        view.add(&mut matrix, &local);

        let expected: Vec<Vec<i64>> = vec![
            vec![0, 0, 0, 0, 0, 0, 0, 0],
            vec![0, 0, 0, 0, 0, 0, 0, 0],
            vec![0, 0, 6, 0, 7, 0, 8, 0],
            vec![0, 0, 0, 0, 0, 0, 0, 0],
            vec![0, 0, 10, 0, 11, 0, 12, 0],
            vec![0, 0, 0, 0, 0, 0, 0, 0],
            vec![0, 0, 14, 0, 15, 0, 16, 0],
            vec![0, 0, 0, 0, 0, 0, 0, 0],
        ];
        for row in 0..8 {
            for col in 0..8 {
                assert_eq!(matrix.get(row, col), expected[row][col]);
            }
        }
    }
}

#[test]
fn vector_view_all_fixed_leaves_global_unchanged() {
    let dofs = vec![Dof::Fixed(5), Dof::Fixed(-3)];
    let mut vector: Vec<i64> = vec![10, 20, 30];
    let view = VectorView::new(dofs);
    view.add(&mut vector, &vec![100, 200]);
    assert_eq!(vector, vec![10, 20, 30]);
}

#[test]
fn vector_view_accumulates_over_repeated_calls() {
    let dofs = vec![Dof::Free(0), Dof::Fixed(0)];
    let mut vector: Vec<i64> = vec![0, 0];
    let view = VectorView::new(dofs);
    view.add(&mut vector, &vec![7, 9]);
    view.add(&mut vector, &vec![7, 9]);
    assert_eq!(vector, vec![14, 0]);
}

#[test]
fn vector_view_repeated_dof_accumulates_within_one_call() {
    let dofs = vec![Dof::Free(1), Dof::Free(1)];
    let mut vector: Vec<i64> = vec![0, 5];
    let view = VectorView::new(dofs);
    view.add(&mut vector, &vec![2, 3]);
    assert_eq!(vector, vec![0, 10]);
}

#[test]
fn matrix_view_blocks_touching_fixed_dofs_vanish() {
    let dofs = vec![Dof::Free(0), Dof::Fixed(2)];
    let mut matrix = Matrix::zeros(2, 2);
    let mut local = Matrix::zeros(2, 2);
    local.set(0, 0, 1);
    local.set(0, 1, 2);
    local.set(1, 0, 3);
    local.set(1, 1, 4);
    let view = MatrixView::new(dofs);
    view.add(&mut matrix, &local);
    assert_eq!(matrix.get(0, 0), 1);
    assert_eq!(matrix.get(0, 1), 0);
    assert_eq!(matrix.get(1, 0), 0);
    assert_eq!(matrix.get(1, 1), 0);
}

#[test]
fn read_view_transforms() {
    let vector: Vec<i64> = vec![42, -7];
    assert_eq!(AffineView::transform(&vector, Dof::Fixed(13)), 13);
    assert_eq!(AffineView::transform(&vector, Dof::Free(1)), -7);
    assert_eq!(LinearView::transform(&vector, Dof::Fixed(13)), 0);
    assert_eq!(LinearView::transform(&vector, Dof::Free(0)), 42);

    let view = AffineView::new(vec![Dof::Free(1), Dof::Fixed(9)]);
    assert_eq!(view.at(&vector, 0), -7);
    assert_eq!(view.at(&vector, 1), 9);
    let view = LinearView::new(vec![Dof::Free(1), Dof::Fixed(9)]);
    assert_eq!(view.at(&vector, 0), -7);
    assert_eq!(view.at(&vector, 1), 0);
}

#[test]
fn mass_assembly_gives_positive_entries() {
    // Two elements, each contributing nonnegative masses; every free dof
    // receives at least one strictly positive contribution.
    let mut mass: Vec<i64> = vec![0, 0];

    let element1 = VectorView::new(vec![Dof::Free(0), Dof::Free(1)]);
    element1.add(&mut mass, &vec![2, 2]);

    let element2 = VectorView::new(vec![Dof::Free(1)]);
    element2.add(&mut mass, &vec![1]);

    assert_eq!(mass, vec![2, 3]);
    assert!(mass.iter().all(|&m| m > 0));
}
