use bow_solver::dof::Dof;
use bow_solver::nodes::Constraints;
use bow_solver::system::System;

#[test]
fn dof_allocation_and_state_lengths() {
    let mut system = System::new();
    assert_eq!(system.n_dofs(), 0);

    let a = system.create_free_dof(3);
    let b = system.create_fixed_dof(-4);
    let c = system.create_free_dof(5);

    assert_eq!(a, Dof::Free(0));
    assert_eq!(b, Dof::Fixed(-4));
    assert_eq!(c, Dof::Free(1));
    assert_eq!(system.n_dofs(), 2);
    assert_eq!(system.get_displacements(), &vec![3, 5]);
    assert_eq!(system.get_velocities(), &vec![0, 0]);

    assert!(a.is_free());
    assert!(!a.is_fixed());
    assert!(b.is_fixed());
    assert!(!b.is_free());
}

#[test]
fn node_creation_respects_constraints() {
    let mut system = System::new();

    let n1 = system.create_xy_node(10, 20, Constraints::all_free());
    assert_eq!(n1.x(), Dof::Free(0));
    assert_eq!(n1.y(), Dof::Free(1));

    let n2 = system.create_xy_node(30, 40, Constraints::y_pos_free());
    assert_eq!(n2.x(), Dof::Fixed(30));
    assert_eq!(n2.y(), Dof::Free(2));

    let n3 = system.create_beam_node(1, 2, 3, Constraints::all_fixed());
    assert_eq!(n3.x(), Dof::Fixed(1));
    assert_eq!(n3.y(), Dof::Fixed(2));
    assert_eq!(n3.phi(), Dof::Fixed(3));

    let n4 = system.create_beam_node(4, 5, 6, Constraints::rot_fixed());
    assert_eq!(n4.x(), Dof::Free(3));
    assert_eq!(n4.y(), Dof::Free(4));
    assert_eq!(n4.phi(), Dof::Fixed(6));

    assert_eq!(system.n_dofs(), 5);
    assert_eq!(system.get_displacement(n1.x()), 10);
    assert_eq!(system.get_displacement(n2.x()), 30);
    assert_eq!(system.get_displacement(n2.y()), 40);
    assert_eq!(system.get_displacement(n4.phi()), 6);
    assert_eq!(system.get_velocity(n4.x()), 0);
    assert_eq!(system.get_velocity(n4.phi()), 0);
}

#[test]
fn state_updates() {
    let mut system = System::new();
    let a = system.create_free_dof(0);
    let b = system.create_free_dof(0);

    system.set_displacements(&vec![7, -8]);
    system.set_velocities(&vec![1, 2]);
    system.set_time(100);

    assert_eq!(system.get_displacement(a), 7);
    assert_eq!(system.get_displacement(b), -8);
    assert_eq!(system.get_velocity(a), 1);
    assert_eq!(system.get_velocity(b), 2);
    assert_eq!(system.get_time(), 100);

    // A fixed dof reads its constant as position and zero as velocity.
    let mut other = System::new();
    let f = other.create_fixed_dof(9);
    assert_eq!(other.get_displacement(f), 9);
    assert_eq!(other.get_velocity(f), 0);
}

#[test]
fn oriented_and_point_node_conversions() {
    let mut system = System::new();
    let p = system.create_xy_node(1, 2, Constraints::all_free());
    let o = p.oriented();
    assert_eq!(o.x(), p.x());
    assert_eq!(o.y(), p.y());
    assert_eq!(o.phi(), Dof::Fixed(0));
    let q = o.point();
    assert_eq!(q.x(), p.x());
    assert_eq!(q.y(), p.y());
}

#[test]
fn constraint_constructors() {
    assert_eq!(Constraints::new(true, false, true), Constraints {
        x_pos_fixed: true,
        y_pos_fixed: false,
        z_rot_fixed: true
    });
    assert_eq!(Constraints::all_free(), Constraints::new(false, false, false));
    assert_eq!(Constraints::x_pos_free(), Constraints::new(false, true, true));
    assert_eq!(Constraints::y_pos_free(), Constraints::new(true, false, true));
    assert_eq!(Constraints::z_rot_free(), Constraints::new(true, true, false));
    assert_eq!(Constraints::all_fixed(), Constraints::new(true, true, true));
    assert_eq!(Constraints::pos_fixed(), Constraints::new(true, true, false));
    assert_eq!(Constraints::rot_fixed(), Constraints::new(false, false, true));
}
