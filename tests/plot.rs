use plotpy::{judge_renderer_output, Contour, Decimal, GraphMaker, Plot, RenderOutcome, SaveError};

#[test]
fn new_plot_works() {
    let plot = Plot::new();
    assert_eq!(plot.buffer().len(), 0);
}

#[test]
fn subplot_functions_work() {
    let mut plot = Plot::new();
    plot.subplot(2, 2, 0);
    plot.subplot_horizontal_gap(Decimal::new(1, -1));
    plot.subplot_vertical_gap(Decimal::new(2, -1));
    let correct: &str = "\nplt.subplot(2,2,0)\n\
                           plt.subplots_adjust(hspace=0.1)\n\
                           plt.subplots_adjust(wspace=0.2)\n";
    assert_eq!(plot.buffer(), correct);
}

#[test]
fn axes_functions_work() {
    let mut plot = Plot::new();
    plot.equal();
    plot.hide_axes();
    plot.range(
        Decimal::from_int(-1),
        Decimal::from_int(1),
        Decimal::from_int(-1),
        Decimal::from_int(1),
    );
    let correct: &str = "plt.axis('equal')\n\
                         plt.axis('off')\n\
                         plt.axis([-1,1,-1,1])\n";
    assert_eq!(plot.buffer(), correct);
}

#[test]
fn subplot_gap_writes_both_spaces() {
    let mut plot = Plot::new();
    plot.subplot_gap(Decimal::new(15, -2), Decimal::new(3, 0));
    assert_eq!(plot.buffer(), "plt.subplots_adjust(hspace=0.15,wspace=3)\n");
}

#[test]
fn partial_limits_keep_current_ones() {
    let mut plot = Plot::new();
    plot.xmin(Decimal::new(-5, -1));
    plot.xmax(Decimal::new(25, 0));
    plot.ymin(Decimal::from_int(0));
    plot.ymax(Decimal::new(7, 2));
    plot.xrange(Decimal::from_int(1), Decimal::from_int(2));
    plot.yrange(Decimal::from_int(3), Decimal::from_int(4));
    let correct = "plt.axis([-0.5,plt.axis()[1],plt.axis()[2],plt.axis()[3]])\n\
                   plt.axis([plt.axis()[0],25,plt.axis()[2],plt.axis()[3]])\n\
                   plt.axis([plt.axis()[0],plt.axis()[1],0,plt.axis()[3]])\n\
                   plt.axis([plt.axis()[0],plt.axis()[1],plt.axis()[2],700])\n\
                   plt.axis([1,2,plt.axis()[2],plt.axis()[3]])\n\
                   plt.axis([plt.axis()[0],plt.axis()[1],3,4])\n";
    assert_eq!(plot.buffer(), correct);
}

#[test]
fn range_vec_takes_four_limits() {
    let mut plot = Plot::new();
    let lims = vec![
        Decimal::new(-125, -2),
        Decimal::new(1, -3),
        Decimal::from_int(-10),
        Decimal::new(12345, -1),
    ];
    plot.range_vec(&lims);
    assert_eq!(plot.buffer(), "plt.axis([-1.25,0.001,-10,1234.5])\n");
}

#[test]
fn nticks_zero_removes_ticks() {
    let mut plot = Plot::new();
    plot.xnticks(0);
    plot.ynticks(0);
    plot.xnticks(5);
    plot.ynticks(-3);
    let correct = "plt.gca().get_xaxis().set_ticks([])\n\
                   plt.gca().get_yaxis().set_ticks([])\n\
                   plt.gca().get_xaxis().set_major_locator(tck.MaxNLocator(5))\n\
                   plt.gca().get_yaxis().set_major_locator(tck.MaxNLocator(-3))\n";
    assert_eq!(plot.buffer(), correct);
}

#[test]
fn labels_and_grid() {
    let mut plot = Plot::new();
    plot.xlabel("x");
    plot.ylabel("y");
    plot.labels("a", "b");
    plot.grid_and_labels("x-label", "y-label");
    plot.clear_current_figure();
    let correct = "plt.xlabel(r'x')\n\
                   plt.ylabel(r'y')\n\
                   plt.xlabel(r'a')\n\
                   plt.ylabel(r'b')\n\
                   plt.grid(linestyle='--',color='grey',zorder=-1000)\n\
                   plt.xlabel(r'x-label')\n\
                   plt.ylabel(r'y-label')\n\
                   plt.clf()\n";
    assert_eq!(plot.buffer(), correct);
}

#[test]
fn extreme_integers_are_written_in_full() {
    let mut plot = Plot::new();
    plot.subplot(i32::MIN, i32::MAX, 10);
    assert_eq!(plot.buffer(), "\nplt.subplot(-2147483648,2147483647,10)\n");
}

#[test]
fn save_script_appends_savefig() {
    let mut plot = Plot::new();
    plot.equal();
    let script = plot.save_script("/tmp/fig.svg");
    assert_eq!(
        script,
        "plt.axis('equal')\n\nfn='/tmp/fig.svg'\nplt.savefig(fn, bbox_inches='tight', bbox_extra_artists=EXTRA_ARTISTS)\n"
    );
    assert_eq!(plot.buffer(), "plt.axis('equal')\n");
    assert_eq!(plot.save_script("/tmp/fig.svg"), script);
}

#[test]
fn renderer_output_failure_keeps_text_for_log() {
    let diagnostics = String::from("Traceback (most recent call last):\nNameError\n");
    match judge_renderer_output(diagnostics.clone()) {
        RenderOutcome::Failure { log } => assert_eq!(log, diagnostics),
        RenderOutcome::Success => panic!("non-empty output must be a failure"),
    }
    assert_eq!(SaveError::RendererFailed.message(), "python3 failed; please see the log file");
    assert_ne!(SaveError::RendererFailed, SaveError::Io { message: "cannot create log file" });
    assert_eq!(SaveError::Io { message: "cannot create log file" }.message(), "cannot create log file");
}

#[test]
fn renderer_output_empty_is_success() {
    assert!(matches!(judge_renderer_output(String::new()), RenderOutcome::Success));
}

#[test]
fn add_concatenates_element_scripts_in_order() {
    let x = vec![vec![Decimal::from_int(0), Decimal::from_int(1)]];
    let y = vec![vec![Decimal::from_int(2), Decimal::from_int(3)]];
    let z = vec![vec![Decimal::from_int(4), Decimal::from_int(5)]];
    let mut a = Contour::new();
    a.draw_filled(&x, &y, &z).unwrap();
    let mut b = Contour::new();
    b.levels = vec![Decimal::from_int(1)];
    b.draw_filled(&x, &y, &z).unwrap();
    let mut plot = Plot::new();
    plot.equal();
    plot.add(&a);
    plot.add(&b);
    plot.hide_axes();
    let expected = format!(
        "plt.axis('equal')\n{}{}plt.axis('off')\n",
        a.get_buffer(),
        b.get_buffer()
    );
    assert_eq!(plot.buffer(), &expected);
    a.draw_filled(&x, &y, &z).unwrap();
    assert_eq!(plot.buffer(), &expected);
}
